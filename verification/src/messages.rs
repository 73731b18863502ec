//! The messages that the controller receives: commands of the user
//! interface and completions of the workers, as one stream.

use crate::downloads::DownloadFailure;
use crate::types::EpData;
use crate::types::FilterType;
use crate::types::PodcastFeed;
use crate::types::PodcastNoId;
use crate::worker::AttemptOutcome;
use vstd::prelude::*;

verus! {

/// What the user interface asks of the controller. Podcasts and episodes are
/// named by identifier, the podcast first.
#[derive(Debug, Clone, PartialEq, Eq)]
pub enum UiMsg {
    /// Subscribe to the feed at this address.
    AddFeed(String),
    /// Play an episode.
    Play(i64, i64),
    /// Mark an episode as played or unplayed.
    MarkPlayed(i64, i64, bool),
    /// Mark every episode of a podcast as played or unplayed.
    MarkAllPlayed(i64, bool),
    /// Sync one podcast.
    Sync(i64),
    /// Sync every podcast.
    SyncAll,
    /// Download an episode.
    Download(i64, i64),
    /// Download several episodes.
    DownloadMulti(Vec<(i64, i64)>),
    /// Download every episode of a podcast that is not downloaded.
    DownloadAll(i64),
    /// Delete the file of an episode.
    Delete(i64, i64),
    /// Delete the files of a podcast.
    DeleteAll(i64),
    /// Remove a podcast; the flag asks for its files to be deleted first.
    RemovePodcast(i64, bool),
    /// Remove an episode; the flag asks for its file to be deleted first.
    RemoveEpisode(i64, i64, bool),
    /// Remove every episode of a podcast; the flag asks for the files to be
    /// deleted first.
    RemoveAllEpisodes(i64, bool),
    /// Step through a filter.
    FilterChange(FilterType),
    /// Stop.
    Quit,
    /// Nothing.
    Noop,
}

/// How a feed check ended.
#[derive(Debug, Clone, PartialEq, Eq)]
pub enum FeedMsg {
    /// The feed of a podcast that is not stored yet.
    NewData(PodcastNoId),
    /// The feed of the stored podcast with this identifier.
    SyncData(i64, PodcastNoId),
    /// The feed could not be fetched; the descriptor carries the podcast's
    /// title where it is stored.
    Error(PodcastFeed),
}

/// How a download ended.
#[derive(Debug, Clone, PartialEq, Eq)]
pub enum DownloadMsg {
    /// The file is there; the descriptor carries its path.
    Complete(EpData),
    /// The request could not be sent.
    ResponseError(EpData),
    /// The file could not be created.
    FileCreateError(EpData),
    /// Writing the file failed halfway.
    FileWriteError(EpData),
}

/// Everything the controller receives, whoever sent it.
#[derive(Debug, Clone, PartialEq, Eq)]
pub enum Message {
    Ui(UiMsg),
    Feed(FeedMsg),
    Dl(DownloadMsg),
}

/// The episode that a download message speaks of.
pub open spec fn failed_episode(message: DownloadMsg) -> EpData {
    match message {
        DownloadMsg::Complete(ep) => ep,
        DownloadMsg::ResponseError(ep) => ep,
        DownloadMsg::FileCreateError(ep) => ep,
        DownloadMsg::FileWriteError(ep) => ep,
    }
}

/// How the download failed that a message reports; a completed download is
/// given as a failed request, for want of a failure.
pub open spec fn failure_of(message: DownloadMsg) -> DownloadFailure {
    match message {
        DownloadMsg::FileCreateError(_) => DownloadFailure::FileCreate,
        DownloadMsg::FileWriteError(_) => DownloadFailure::FileWrite,
        _ => DownloadFailure::Response,
    }
}

/// Whether the controller can handle a message on its own, with no work on
/// storage, disk, network or player: a filter change, a failed feed check, a
/// failed download, or nothing.
pub open spec fn needs_no_outside_work(message: Message) -> bool {
    match message {
        Message::Ui(UiMsg::FilterChange(_)) => true,
        Message::Ui(UiMsg::Noop) => true,
        Message::Feed(FeedMsg::Error(_)) => true,
        Message::Dl(DownloadMsg::ResponseError(_)) => true,
        Message::Dl(DownloadMsg::FileCreateError(_)) => true,
        Message::Dl(DownloadMsg::FileWriteError(_)) => true,
        _ => false,
    }
}

/// How fetching a feed can fail.
#[derive(Debug, Clone, Copy, PartialEq, Eq, Structural)]
pub enum FeedFailure {
    /// The feed could not be reached.
    Transport,
    /// The answer is no feed.
    Malformed,
}

/// How an attempt at a feed check ended, for the retry policy: a feed that
/// could not be reached is worth another attempt; an answer that is no feed
/// is not.
pub fn feed_attempt(failure: Option<FeedFailure>) -> (outcome: AttemptOutcome)
    ensures
        outcome == match failure {
            None => AttemptOutcome::Success,
            Some(FeedFailure::Transport) => AttemptOutcome::Transient,
            Some(FeedFailure::Malformed) => AttemptOutcome::Terminal,
        },
{
    match failure {
        None => AttemptOutcome::Success,
        Some(FeedFailure::Transport) => AttemptOutcome::Transient,
        Some(FeedFailure::Malformed) => AttemptOutcome::Terminal,
    }
}

/// How an attempt at a download ended, for the retry policy: a request that
/// could not be sent may pass and is worth another attempt; a file that
/// cannot be created or written is not.
pub fn download_attempt(failure: Option<DownloadFailure>) -> (outcome: AttemptOutcome)
    ensures
        outcome == match failure {
            None => AttemptOutcome::Success,
            Some(DownloadFailure::Response) => AttemptOutcome::Transient,
            Some(DownloadFailure::FileCreate) => AttemptOutcome::Terminal,
            Some(DownloadFailure::FileWrite) => AttemptOutcome::Terminal,
        },
{
    match failure {
        None => AttemptOutcome::Success,
        Some(DownloadFailure::Response) => AttemptOutcome::Transient,
        Some(DownloadFailure::FileCreate) => AttemptOutcome::Terminal,
        Some(DownloadFailure::FileWrite) => AttemptOutcome::Terminal,
    }
}

/// The one completion that a feed check reports. `fetched` is the feed's
/// content, or nothing where the job failed. The content of a stored
/// podcast's feed goes with the podcast's identifier, that of a new feed
/// alone; a failure hands the descriptor back.
pub fn feed_completion(feed: PodcastFeed, fetched: Option<PodcastNoId>) -> (message: FeedMsg)
    ensures
        message == match fetched {
            Some(pod) => match feed.id {
                Some(id) => FeedMsg::SyncData(id, pod),
                None => FeedMsg::NewData(pod),
            },
            None => FeedMsg::Error(feed),
        },
{
    match fetched {
        Some(pod) => match feed.id {
            Some(id) => FeedMsg::SyncData(id, pod),
            None => FeedMsg::NewData(pod),
        },
        None => FeedMsg::Error(feed),
    }
}

/// The one completion that a download reports. `failure` says how the job
/// failed, if it did. A finished download carries the path of its file; a
/// failed one hands the descriptor back under the kind of its failure.
pub fn download_completion(ep: EpData, path: String, failure: Option<DownloadFailure>) -> (message:
    DownloadMsg)
    ensures
        message == match failure {
            None => DownloadMsg::Complete(EpData { file_path: Some(path), ..ep }),
            Some(DownloadFailure::Response) => DownloadMsg::ResponseError(ep),
            Some(DownloadFailure::FileCreate) => DownloadMsg::FileCreateError(ep),
            Some(DownloadFailure::FileWrite) => DownloadMsg::FileWriteError(ep),
        },
{
    match failure {
        None => {
            let mut done = ep;
            done.file_path = Some(path);
            DownloadMsg::Complete(done)
        },
        Some(DownloadFailure::Response) => DownloadMsg::ResponseError(ep),
        Some(DownloadFailure::FileCreate) => DownloadMsg::FileCreateError(ep),
        Some(DownloadFailure::FileWrite) => DownloadMsg::FileWriteError(ep),
    }
}

} // verus!
