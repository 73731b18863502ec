//! Plain data describing podcasts, episodes and the filters applied to them.

use crate::store::Entity;
use crate::store::OrderedStore;
use crate::store::StoreView;
use vstd::prelude::*;

verus! {

/// Mathematical model of an [`Episode`].
pub struct EpisodeView {
    pub id: i64,
    pub pod_id: i64,
    pub title: Seq<char>,
    pub url: Seq<char>,
    pub description: Option<Seq<char>>,
    pub pubdate: Option<i64>,
    pub duration: Option<i64>,
    pub path: Option<Seq<char>>,
    pub played: bool,
}

/// A stored episode. `pubdate` is a Unix timestamp in seconds; `path` is the
/// local file of a finished download.
#[derive(Debug, Clone, PartialEq, Eq)]
pub struct Episode {
    pub id: i64,
    pub pod_id: i64,
    pub title: String,
    pub url: String,
    pub description: Option<String>,
    pub pubdate: Option<i64>,
    pub duration: Option<i64>,
    pub path: Option<String>,
    pub played: bool,
}

/// Model of an optional string.
pub open spec fn opt_text(s: Option<String>) -> Option<Seq<char>> {
    match s {
        Some(t) => Some(t@),
        None => None,
    }
}

/// Copies an optional string.
pub fn clone_opt_string(s: &Option<String>) -> (copy: Option<String>)
    ensures
        copy == *s,
{
    match s {
        Some(t) => Some(t.clone()),
        None => None,
    }
}

impl View for Episode {
    type V = EpisodeView;

    open spec fn view(&self) -> EpisodeView {
        EpisodeView {
            id: self.id,
            pod_id: self.pod_id,
            title: self.title@,
            url: self.url@,
            description: opt_text(self.description),
            pubdate: self.pubdate,
            duration: self.duration,
            path: opt_text(self.path),
            played: self.played,
        }
    }
}

impl Episode {
    /// Whether the episode has been played.
    pub fn is_played(&self) -> (played: bool)
        ensures
            played == self@.played,
    {
        self.played
    }
}

impl Entity for Episode {
    open spec fn model_id(v: EpisodeView) -> i64 {
        v.id
    }

    fn get_id(&self) -> (id: i64) {
        self.id
    }

    fn duplicate(&self) -> (copy: Episode) {
        Episode {
            id: self.id,
            pod_id: self.pod_id,
            title: self.title.clone(),
            url: self.url.clone(),
            description: clone_opt_string(&self.description),
            pubdate: self.pubdate,
            duration: self.duration,
            path: clone_opt_string(&self.path),
            played: self.played,
        }
    }
}

/// An episode as a feed describes it, before storage has given it an
/// identifier.
#[derive(Debug, Clone, PartialEq, Eq)]
pub struct EpisodeNoId {
    pub title: String,
    pub url: String,
    pub description: Option<String>,
    pub pubdate: Option<i64>,
    pub duration: Option<i64>,
}

/// Mathematical model of a [`Podcast`].
pub struct PodcastView {
    pub id: i64,
    pub title: Seq<char>,
    pub sort_title: Seq<char>,
    pub url: Seq<char>,
    pub description: Option<Seq<char>>,
    pub author: Option<Seq<char>>,
    pub explicit: Option<bool>,
    pub last_checked: i64,
    pub episodes: StoreView<EpisodeView>,
}

/// A stored podcast with its episodes. `last_checked` is a Unix timestamp in
/// seconds.
pub struct Podcast {
    pub id: i64,
    pub title: String,
    pub sort_title: String,
    pub url: String,
    pub description: Option<String>,
    pub author: Option<String>,
    pub explicit: Option<bool>,
    pub last_checked: i64,
    pub episodes: OrderedStore<Episode>,
}

impl View for Podcast {
    type V = PodcastView;

    open spec fn view(&self) -> PodcastView {
        PodcastView {
            id: self.id,
            title: self.title@,
            sort_title: self.sort_title@,
            url: self.url@,
            description: opt_text(self.description),
            author: opt_text(self.author),
            explicit: self.explicit,
            last_checked: self.last_checked,
            episodes: self.episodes@,
        }
    }
}

impl Entity for Podcast {
    open spec fn model_id(v: PodcastView) -> i64 {
        v.id
    }

    fn get_id(&self) -> (id: i64) {
        self.id
    }

    fn duplicate(&self) -> (copy: Podcast) {
        Podcast {
            id: self.id,
            title: self.title.clone(),
            sort_title: self.sort_title.clone(),
            url: self.url.clone(),
            description: clone_opt_string(&self.description),
            author: clone_opt_string(&self.author),
            explicit: self.explicit,
            last_checked: self.last_checked,
            episodes: self.episodes.duplicate(),
        }
    }
}

/// A podcast as a feed describes it, before storage has given it an
/// identifier.
#[derive(Debug, Clone, PartialEq, Eq)]
pub struct PodcastNoId {
    pub title: String,
    pub url: String,
    pub description: Option<String>,
    pub author: Option<String>,
    pub explicit: Option<bool>,
    pub last_checked: i64,
    pub episodes: Vec<EpisodeNoId>,
}

/// An episode that a sync has just added, with what is needed to tell the
/// user about it and to download it.
#[derive(Debug, Clone, PartialEq, Eq)]
pub struct NewEpisode {
    pub id: i64,
    pub pod_id: i64,
    pub title: String,
    pub pod_title: String,
    pub selected: bool,
}

impl NewEpisode {
    /// An owned copy.
    pub fn duplicate(&self) -> (copy: NewEpisode)
        ensures
            copy == *self,
    {
        NewEpisode {
            id: self.id,
            pod_id: self.pod_id,
            title: self.title.clone(),
            pod_title: self.pod_title.clone(),
            selected: self.selected,
        }
    }
}

/// What a filter lets through.
#[derive(Debug, Clone, Copy, PartialEq, Eq, Structural)]
pub enum FilterStatus {
    /// Only the episodes that are played, or downloaded.
    PositiveCases,
    /// Only the episodes that are not played, or not downloaded.
    NegativeCases,
    /// Every episode.
    All,
}

/// What a filter looks at.
#[derive(Debug, Clone, Copy, PartialEq, Eq, Structural)]
pub enum FilterType {
    Played,
    Downloaded,
}

/// The filters that are active.
#[derive(Debug, Clone, Copy, PartialEq, Eq, Structural)]
pub struct Filters {
    pub played: FilterStatus,
    pub downloaded: FilterStatus,
}

impl Default for Filters {
    fn default() -> (filters: Filters)
        ensures
            filters == (Filters { played: FilterStatus::All, downloaded: FilterStatus::All }),
    {
        Filters { played: FilterStatus::All, downloaded: FilterStatus::All }
    }
}

/// What a download job needs to know of an episode, and, once the download
/// is done, where the file is.
#[derive(Debug, Clone, PartialEq, Eq)]
pub struct EpData {
    pub id: i64,
    pub pod_id: i64,
    pub title: String,
    pub url: String,
    pub pubdate: Option<i64>,
    pub file_path: Option<String>,
}

/// What a feed-check job needs to know of a podcast: its identifier and
/// title where it is already stored, and the feed's address.
#[derive(Debug, Clone, PartialEq, Eq)]
pub struct PodcastFeed {
    pub id: Option<i64>,
    pub url: String,
    pub title: Option<String>,
}

impl PodcastFeed {
    /// A feed descriptor.
    pub fn new(id: Option<i64>, url: String, title: Option<String>) -> (feed: PodcastFeed)
        ensures
            feed == (PodcastFeed { id, url, title }),
    {
        PodcastFeed { id, url, title }
    }
}

/// What to do with the episodes that a sync has added.
#[derive(Debug, Clone, Copy, PartialEq, Eq, Structural)]
pub enum DownloadNewEpisodes {
    Always,
    AskSelected,
    AskUnselected,
    Never,
}

} // verus!
