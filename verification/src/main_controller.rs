//! The controller: the one owner of the model. Each handler takes what the
//! outside world has answered, changes the model and says what to tell the
//! user interface next.

use crate::db::SyncResult;
use crate::filters::filter_label;
use crate::filters::filtered_model;
use crate::filters::keeps;
use crate::filters::lemma_filter_within;
use crate::filters::podcast_filtered;
use crate::filters::shows;
use crate::filters::step_filter;
use crate::filters::stepped;
use crate::filters::visible_episode_ids;
use crate::messages::needs_no_outside_work;
use crate::messages::DownloadMsg;
use crate::messages::FeedMsg;
use crate::messages::Message;
use crate::messages::UiMsg;
use crate::downloads::download_failure_text;
use crate::downloads::DownloadFailure;
use crate::messages::failed_episode;
use crate::messages::failure_of;
use crate::store::holds_exactly;
use crate::store::ids_of;
use crate::store::loaded;
use crate::store::views_of;
use crate::store::OrderedStore;
use crate::text::decimal;
use crate::text::decimal_digits;
use crate::types::DownloadNewEpisodes;
use crate::types::FilterStatus;
use crate::types::FilterType;
use crate::types::Filters;
use crate::types::NewEpisode;
use crate::types::Podcast;
use crate::types::PodcastFeed;
use crate::types::PodcastView;
use std::collections::HashSet;
use vstd::prelude::*;
use vstd::string::StringExecFns;

verus! {

broadcast use vstd::std_specs::hash::group_hash_axioms;

/// How long a notification stays on screen, in milliseconds.
pub const MESSAGE_TIME: u64 = 5000;

/// What the controller tells the user interface.
#[derive(Debug, Clone, PartialEq, Eq)]
pub enum MainMessage {
    /// The menus have to be drawn again.
    UiUpdateMenus,
    /// Show a notification: its text, whether it reports an error, and for
    /// how many milliseconds.
    UiSpawnNotif(String, bool, u64),
    /// Show a notification that stays until it is cleared.
    UiSpawnPersistentNotif(String, bool),
    /// Clear the notification that stays.
    UiClearPersistentNotif,
    /// Let the user pick which new episodes to download; the flag says
    /// whether they start out selected.
    UiSpawnDownloadPopup(Vec<NewEpisode>, bool),
    /// Shut the user interface down.
    UiTearDown,
}

/// The message is a notification with this text and error flag, shown for
/// the usual time.
pub open spec fn is_notif(m: MainMessage, text: Seq<char>, error: bool) -> bool {
    m matches MainMessage::UiSpawnNotif(t, e, d) && t@ == text && e == error && d == MESSAGE_TIME
}

/// The message is a lasting notification with this text and error flag.
pub open spec fn is_persistent_notif(m: MainMessage, text: Seq<char>, error: bool) -> bool {
    m matches MainMessage::UiSpawnPersistentNotif(t, e) && t@ == text && e == error
}

/// The plural ending for a count.
pub open spec fn plural(n: nat) -> Seq<char> {
    if n > 1 {
        "s"@
    } else {
        ""@
    }
}

/// What the lasting notification says while `sync_len` feed checks and
/// `dl_len` downloads are in flight, at least one of them.
pub open spec fn tracker_text(sync_len: nat, dl_len: nat) -> Seq<char> {
    if sync_len > 0 && dl_len > 0 {
        "Syncing "@ + decimal_digits(sync_len) + " podcast"@ + plural(sync_len)
            + ", downloading "@ + decimal_digits(dl_len) + " episode"@ + plural(dl_len) + "..."@
    } else if sync_len > 0 {
        "Syncing "@ + decimal_digits(sync_len) + " podcast"@ + plural(sync_len) + "..."@
    } else {
        "Downloading "@ + decimal_digits(dl_len) + " episode"@ + plural(dl_len) + "..."@
    }
}

/// The message is the one that reports `sync_len` feed checks and `dl_len`
/// downloads in flight: a lasting notification, or the request to clear it
/// where nothing is in flight.
pub open spec fn is_tracker_message(m: MainMessage, sync_len: nat, dl_len: nat) -> bool {
    if sync_len == 0 && dl_len == 0 {
        m is UiClearPersistentNotif
    } else {
        is_persistent_notif(m, tracker_text(sync_len, dl_len), false)
    }
}

/// The feed descriptor is that of a stored podcast.
pub open spec fn feed_for(f: PodcastFeed, p: PodcastView) -> bool {
    &&& f.id == Some(p.id)
    &&& f.url@ == p.url
    &&& f.title matches Some(t) && t@ == p.title
}

/// The episodes that the syncs of a batch have added, batch order first.
pub open spec fn all_added(results: Seq<SyncResult>) -> Seq<NewEpisode>
    decreases results.len(),
{
    if results.len() == 0 {
        Seq::empty()
    } else {
        all_added(results.drop_last()) + results.last().added@
    }
}

/// The identifiers of the episodes that the syncs of a batch have updated.
pub open spec fn all_updated(results: Seq<SyncResult>) -> Seq<i64>
    decreases results.len(),
{
    if results.len() == 0 {
        Seq::empty()
    } else {
        all_updated(results.drop_last()) + results.last().updated@
    }
}

/// What the user is told when a batch of syncs has finished.
pub open spec fn sync_complete_text(added: nat, updated: nat) -> Seq<char> {
    "Sync complete: Added "@ + decimal_digits(added) + ", updated "@ + decimal_digits(updated)
        + " episodes."@
}

/// What the user is told when storing a fetched feed has failed: for a sync
/// of a stored podcast, and for a podcast that was to be added.
pub open spec fn sync_failure_text(title: Seq<char>, is_sync: bool) -> Seq<char> {
    if is_sync {
        "Error synchronizing "@ + title + "."@
    } else {
        "Error adding podcast to database."@
    }
}

/// The podcast and episode identifiers of new episodes, as a download
/// request for each is made of them.
pub open spec fn download_pairs(eps: Seq<NewEpisode>) -> Seq<(i64, i64)> {
    Seq::new(eps.len(), |k: int| (eps[k].pod_id, eps[k].id))
}

/// The message asks the user which of `eps` to download.
pub open spec fn is_popup(m: MainMessage, eps: Seq<NewEpisode>, selected: bool) -> bool {
    m matches MainMessage::UiSpawnDownloadPopup(e, s) && e@ == eps && s == selected
}

/// What a handler leaves to be done: the messages for the user interface,
/// in order, and the episodes to request a download for, as pairs of podcast
/// and episode identifier.
#[derive(Debug, Clone, PartialEq, Eq)]
pub struct SyncOutcome {
    pub messages: Vec<MainMessage>,
    pub downloads: Vec<(i64, i64)>,
}

/// How the end of a batch is reported. The first message gives the totals
/// of added and updated episodes. Where episodes were added, the policy
/// decides: download each at once, ask the user with every episode selected
/// or with none selected, or do nothing.
pub open spec fn batch_reported(
    messages: Seq<MainMessage>,
    downloads: Seq<(i64, i64)>,
    results: Seq<SyncResult>,
    policy: DownloadNewEpisodes,
) -> bool {
    let added = all_added(results);
    let asks = added.len() > 0 && (policy == DownloadNewEpisodes::AskSelected || policy
        == DownloadNewEpisodes::AskUnselected);
    &&& messages.len() == if asks {
        2int
    } else {
        1int
    }
    &&& is_notif(
        messages[0],
        sync_complete_text(added.len(), all_updated(results).len()),
        false,
    )
    &&& asks ==> is_popup(messages[1], added, policy == DownloadNewEpisodes::AskSelected)
    &&& downloads == if added.len() > 0 && policy == DownloadNewEpisodes::Always {
        download_pairs(added)
    } else {
        Seq::empty()
    }
}

/// The results of a batch once a feed check has been answered: with the
/// result of the sync where storage took it, as before where storage failed.
pub open spec fn batch_with(
    results: Seq<SyncResult>,
    stored: Option<(SyncResult, Vec<Podcast>)>,
) -> Seq<SyncResult> {
    match stored {
        Some(pair) => results.push(pair.0),
        None => results,
    }
}

/// How the end of one feed check of a sync is reported, whether it brought
/// data or failed. `counter` is the number of feed checks still in flight
/// and `results` the results of the batch so far. The first message reports
/// what is in flight. Where nothing is, the batch is closed: the rest is as
/// [`batch_reported`] says. Where something is, there is nothing more.
pub open spec fn answer_reported(
    messages: Seq<MainMessage>,
    downloads: Seq<(i64, i64)>,
    results: Seq<SyncResult>,
    counter: nat,
    downloading: nat,
    policy: DownloadNewEpisodes,
) -> bool {
    &&& messages.len() >= 1
    &&& is_tracker_message(messages[0], counter, downloading)
    &&& if counter > 0 {
        messages.len() == 1 && downloads.len() == 0
    } else {
        batch_reported(messages.subrange(1, messages.len() as int), downloads, results, policy)
    }
}

/// The episodes added and the identifiers updated by all syncs of a batch.
pub fn collect_batch(results: &Vec<SyncResult>) -> (out: (Vec<NewEpisode>, Vec<i64>))
    ensures
        out.0@ == all_added(results@),
        out.1@ == all_updated(results@),
{
    let mut added: Vec<NewEpisode> = Vec::new();
    let mut updated: Vec<i64> = Vec::new();
    let n = results.len();
    let mut i: usize = 0;
    while i < n
        invariant
            i <= n,
            n == results@.len(),
            added@ == all_added(results@.take(i as int)),
            updated@ == all_updated(results@.take(i as int)),
        decreases n - i,
    {
        let res = &results[i];
        let ghost base_added = added@;
        let ghost base_updated = updated@;
        let a = res.added.len();
        let mut j: usize = 0;
        while j < a
            invariant
                j <= a,
                a == res.added@.len(),
                added@ == base_added + res.added@.take(j as int),
            decreases a - j,
        {
            added.push(res.added[j].duplicate());
            assert(res.added@.take(j as int + 1) =~= res.added@.take(j as int).push(
                res.added@[j as int],
            ));
            assert(added@ =~= base_added + res.added@.take(j as int + 1));
            j += 1;
        }
        let u = res.updated.len();
        let mut k: usize = 0;
        while k < u
            invariant
                k <= u,
                u == res.updated@.len(),
                updated@ == base_updated + res.updated@.take(k as int),
            decreases u - k,
        {
            updated.push(res.updated[k]);
            assert(res.updated@.take(k as int + 1) =~= res.updated@.take(k as int).push(
                res.updated@[k as int],
            ));
            assert(updated@ =~= base_updated + res.updated@.take(k as int + 1));
            k += 1;
        }
        proof {
            assert(res.added@.take(a as int) =~= res.added@);
            assert(res.updated@.take(u as int) =~= res.updated@);
            let now = results@.take(i as int + 1);
            assert(now.drop_last() =~= results@.take(i as int));
            assert(now.last() == results@[i as int]);
        }
        i += 1;
    }
    assert(results@.take(n as int) =~= results@);
    (added, updated)
}

/// The plural ending for a count.
fn plural_ending(n: usize) -> (s: &'static str)
    ensures
        s@ == plural(n as nat),
{
    if n > 1 {
        "s"
    } else {
        ""
    }
}

/// The state that the controller owns.
pub struct MainController {
    /// The podcasts, each with its episodes.
    pub podcasts: OrderedStore<Podcast>,
    /// The active filters.
    pub filters: Filters,
    /// How many podcasts wait for the answer to a feed check.
    pub sync_counter: usize,
    /// The results of the feed checks of the running batch.
    pub sync_tracker: Vec<SyncResult>,
    /// The episodes whose download is in flight.
    pub download_tracker: HashSet<i64>,
    /// What to do with the episodes that a sync adds.
    pub download_new_episodes: DownloadNewEpisodes,
}

impl MainController {
    /// Everything but the podcasts is as it was before the call.
    pub open spec fn same_bookkeeping(&self, before: &MainController) -> bool {
        &&& self.filters == before.filters
        &&& self.sync_counter == before.sync_counter
        &&& self.sync_tracker == before.sync_tracker
        &&& self.download_tracker == before.download_tracker
        &&& self.download_new_episodes == before.download_new_episodes
    }

    /// A notification for the user interface, shown for the usual time.
    pub fn notif_to_ui(&self, message: String, error: bool) -> (m: MainMessage)
        ensures
            m == MainMessage::UiSpawnNotif(message, error, MESSAGE_TIME),
    {
        MainMessage::UiSpawnNotif(message, error, MESSAGE_TIME)
    }

    /// A notification that stays until it is cleared.
    pub fn persistent_notif_to_ui(&self, message: String, error: bool) -> (m: MainMessage)
        ensures
            m == MainMessage::UiSpawnPersistentNotif(message, error),
    {
        MainMessage::UiSpawnPersistentNotif(message, error)
    }

    /// The request to clear the notification that stays.
    pub fn clear_persistent_notif(&self) -> (m: MainMessage)
        ensures
            m == MainMessage::UiClearPersistentNotif,
    {
        MainMessage::UiClearPersistentNotif
    }

    /// Recomputes every filtered order under `filters`: for each podcast the
    /// episodes that the filters let through, and for the podcast list the
    /// podcasts that are left with a visible episode. Asks for the menus to
    /// be drawn again where `update_menus` is set.
    pub fn update_filters(&mut self, filters: Filters, update_menus: bool) -> (messages: Vec<
        MainMessage,
    >)
        ensures
            final(self).podcasts@ == filtered_model(old(self).podcasts@, filters),
            final(self).same_bookkeeping(old(self)),
            messages@ == if update_menus {
                seq![MainMessage::UiUpdateMenus]
            } else {
                Seq::<MainMessage>::empty()
            },
    {
        self.podcasts.check_wf();
        let ghost orig = self.podcasts@;
        let ghost show = shows(orig.map, filters);
        let n = self.podcasts.len();
        let mut shown: Vec<i64> = Vec::new();
        assert(orig.order.take(0) =~= Seq::<i64>::empty());
        assert(Seq::<i64>::empty().filter(show) =~= Seq::<i64>::empty()) by {
            reveal(Seq::filter);
        }
        let mut i: usize = 0;
        while i < n
            invariant
                i <= n,
                n == orig.order.len(),
                orig == old(self).podcasts@,
                old(self).podcasts.wf(),
                show == shows(orig.map, filters),
                self.podcasts.wf(),
                self.podcasts@.order == orig.order,
                self.podcasts@.filtered_order == orig.filtered_order,
                forall|id: i64| self.podcasts@.map.contains_key(id) <==> orig.map.contains_key(id),
                forall|j: int|
                    0 <= j < i ==> self.podcasts@.map[#[trigger] orig.order[j]] == podcast_filtered(
                        orig.map[orig.order[j]],
                        filters,
                    ),
                forall|j: int|
                    i <= j < n ==> self.podcasts@.map[#[trigger] orig.order[j]]
                        == orig.map[orig.order[j]],
                shown@ == orig.order.take(i as int).filter(show),
                self.same_bookkeeping(old(self)),
            decreases n - i,
        {
            let pod_id = self.podcasts.borrow_order()[i];
            assert(orig.order.contains(pod_id));
            proof {
                assert(orig.order.take(i as int + 1) =~= orig.order.take(i as int).push(pod_id));
                orig.order.take(i as int).lemma_filter_push(pod_id, show);
            }
            let ghost before = self.podcasts@;
            match self.podcasts.clone_entity(pod_id) {
                Some(pod) => {
                    let mut pod = pod;
                    let ids = visible_episode_ids(&pod.episodes, filters);
                    if ids.len() > 0 {
                        shown.push(pod_id);
                    }
                    pod.episodes.check_wf();
                    proof {
                        lemma_filter_within(
                            pod.episodes@.order,
                            keeps(pod.episodes@.map, filters),
                        );
                    }
                    pod.episodes.set_filtered_order(ids);
                    assert(pod@ == podcast_filtered(orig.map[pod_id], filters));
                    self.podcasts.replace(pod_id, pod);
                    proof {
                        assert forall|j: int| 0 <= j < i + 1 implies self.podcasts@.map[#[trigger] orig.order[j]]
                            == podcast_filtered(orig.map[orig.order[j]], filters) by {
                            if j < i {
                                assert(orig.order[j] != pod_id);
                                assert(before.map[orig.order[j]] == podcast_filtered(
                                    orig.map[orig.order[j]],
                                    filters,
                                ));
                            }
                        }
                        assert forall|j: int| i + 1 <= j < n implies self.podcasts@.map[#[trigger] orig.order[j]]
                            == orig.map[orig.order[j]] by {
                            assert(orig.order[j] != pod_id);
                            assert(before.map[orig.order[j]] == orig.map[orig.order[j]]);
                        }
                    }
                },
                None => {
                    assert(false);
                },
            }
            i += 1;
        }
        proof {
            assert(orig.order.take(n as int) =~= orig.order);
            lemma_filter_within(orig.order, show);
        }
        self.podcasts.set_filtered_order(shown);
        proof {
            let goal = filtered_model(orig, filters);
            assert forall|id: i64| goal.map.contains_key(id) implies self.podcasts@.map[id]
                == goal.map[id] by {
                assert(orig.order.contains(id));
                let j = choose|j: int| 0 <= j < orig.order.len() && orig.order[j] == id;
                assert(self.podcasts@.map[orig.order[j]] == podcast_filtered(
                    orig.map[orig.order[j]],
                    filters,
                ));
            }
            assert(self.podcasts@.map =~= goal.map);
        }
        let mut messages: Vec<MainMessage> = Vec::new();
        if update_menus {
            messages.push(MainMessage::UiUpdateMenus);
        }
        messages
    }

    /// A controller over the podcasts read from storage, with no filter
    /// active and nothing in flight. There is none where two podcasts share
    /// an identifier.
    pub fn new(download_new_episodes: DownloadNewEpisodes, podcasts: Vec<Podcast>) -> (made: Option<
        MainController,
    >)
        ensures
            made is Some <==> ids_of::<Podcast>(views_of(podcasts@)).no_duplicates(),
            made matches Some(c) ==> {
                &&& holds_exactly::<Podcast>(c.podcasts@, views_of(podcasts@))
                &&& c.filters == (Filters {
                    played: FilterStatus::All,
                    downloaded: FilterStatus::All,
                })
                &&& c.sync_counter == 0
                &&& c.sync_tracker@.len() == 0
                &&& c.download_tracker@ == Set::<i64>::empty()
                &&& c.download_new_episodes == download_new_episodes
            },
    {
        let mut store: OrderedStore<Podcast> = OrderedStore::new();
        if !store.insert_ordered(podcasts) {
            return None;
        }
        Some(
            MainController {
                podcasts: store,
                filters: Filters::default(),
                sync_counter: 0,
                sync_tracker: Vec::new(),
                download_tracker: HashSet::new(),
                download_new_episodes,
            },
        )
    }

    /// The lasting notification on what is in flight: how many podcasts are
    /// syncing and how many episodes are downloading, or the request to
    /// clear it where nothing is.
    pub fn update_tracker_notif(&self) -> (m: MainMessage)
        ensures
            is_tracker_message(m, self.sync_counter as nat, self.download_tracker@.len()),
    {
        let sync_len = self.sync_counter;
        let dl_len = self.download_tracker.len();
        if sync_len > 0 && dl_len > 0 {
            let mut text = String::from_str("Syncing ");
            text.append(decimal(sync_len as u64).as_str());
            text.append(" podcast");
            text.append(plural_ending(sync_len));
            text.append(", downloading ");
            text.append(decimal(dl_len as u64).as_str());
            text.append(" episode");
            text.append(plural_ending(dl_len));
            text.append("...");
            self.persistent_notif_to_ui(text, false)
        } else if sync_len > 0 {
            let mut text = String::from_str("Syncing ");
            text.append(decimal(sync_len as u64).as_str());
            text.append(" podcast");
            text.append(plural_ending(sync_len));
            text.append("...");
            self.persistent_notif_to_ui(text, false)
        } else if dl_len > 0 {
            let mut text = String::from_str("Downloading ");
            text.append(decimal(dl_len as u64).as_str());
            text.append(" episode");
            text.append(plural_ending(dl_len));
            text.append("...");
            self.persistent_notif_to_ui(text, false)
        } else {
            self.clear_persistent_notif()
        }
    }

    /// The feed check for a podcast that is not stored yet: nothing changes
    /// until its answer arrives.
    pub fn add_podcast(&self, url: String) -> (feed: PodcastFeed)
        ensures
            feed == (PodcastFeed { id: None, url, title: None }),
    {
        PodcastFeed::new(None, url, None)
    }

    /// Starts the feed checks for one podcast, or for all of them in
    /// canonical order where `pod_id` is `None`. Counts each as in flight
    /// and returns the feed descriptors to dispatch with the message that
    /// reports what is in flight. A podcast that is no longer stored gives
    /// no feed check.
    pub fn sync(&mut self, pod_id: Option<i64>) -> (out: (Vec<PodcastFeed>, MainMessage))
        requires
            old(self).sync_counter + old(self).podcasts@.order.len() <= usize::MAX,
        ensures
            final(self).podcasts@ == old(self).podcasts@,
            final(self).filters == old(self).filters,
            final(self).sync_tracker == old(self).sync_tracker,
            final(self).download_tracker == old(self).download_tracker,
            final(self).download_new_episodes == old(self).download_new_episodes,
            final(self).sync_counter == old(self).sync_counter + out.0@.len(),
            match pod_id {
                Some(id) => if old(self).podcasts@.map.contains_key(id) {
                    out.0@.len() == 1 && feed_for(out.0@[0], old(self).podcasts@.map[id])
                } else {
                    out.0@.len() == 0
                },
                None => {
                    &&& out.0@.len() == old(self).podcasts@.order.len()
                    &&& forall|i: int|
                        0 <= i < out.0@.len() ==> feed_for(
                            #[trigger] out.0@[i],
                            old(self).podcasts@.map[old(self).podcasts@.order[i]],
                        )
                },
            },
            is_tracker_message(
                out.1,
                final(self).sync_counter as nat,
                final(self).download_tracker@.len(),
            ),
    {
        self.podcasts.check_wf();
        let mut feeds: Vec<PodcastFeed> = Vec::new();
        match pod_id {
            Some(id) => {
                match self.podcasts.get(id) {
                    Some(pod) => {
                        assert(self.podcasts@.order.contains(id));
                        feeds.push(
                            PodcastFeed::new(Some(pod.id), pod.url.clone(), Some(pod.title.clone())),
                        );
                    },
                    None => {},
                }
            },
            None => {
                let n = self.podcasts.len();
                let mut i: usize = 0;
                while i < n
                    invariant
                        i <= n,
                        n == self.podcasts@.order.len(),
                        self.podcasts.wf(),
                        *self == *old(self),
                        feeds@.len() == i,
                        forall|j: int|
                            0 <= j < i ==> feed_for(
                                #[trigger] feeds@[j],
                                self.podcasts@.map[self.podcasts@.order[j]],
                            ),
                    decreases n - i,
                {
                    let id = self.podcasts.borrow_order()[i];
                    assert(self.podcasts@.order.contains(id));
                    match self.podcasts.get(id) {
                        Some(pod) => {
                            feeds.push(
                                PodcastFeed::new(
                                    Some(pod.id),
                                    pod.url.clone(),
                                    Some(pod.title.clone()),
                                ),
                            );
                        },
                        None => {
                            assert(false);
                        },
                    }
                    i += 1;
                }
            },
        }
        self.sync_counter = self.sync_counter + feeds.len();
        let message = self.update_tracker_notif();
        (feeds, message)
    }

    /// Closes a batch of syncs: reports the totals, empties the list of
    /// results and applies the policy on new episodes.
    pub fn finish_batch(&mut self) -> (out: SyncOutcome)
        ensures
            final(self).podcasts == old(self).podcasts,
            final(self).filters == old(self).filters,
            final(self).sync_counter == old(self).sync_counter,
            final(self).download_tracker == old(self).download_tracker,
            final(self).download_new_episodes == old(self).download_new_episodes,
            final(self).sync_tracker@.len() == 0,
            batch_reported(
                out.messages@,
                out.downloads@,
                old(self).sync_tracker@,
                old(self).download_new_episodes,
            ),
    {
        let (added, updated) = collect_batch(&self.sync_tracker);
        self.sync_tracker = Vec::new();
        let mut text = String::from_str("Sync complete: Added ");
        text.append(decimal(added.len() as u64).as_str());
        text.append(", updated ");
        text.append(decimal(updated.len() as u64).as_str());
        text.append(" episodes.");
        let mut messages: Vec<MainMessage> = Vec::new();
        let m = self.notif_to_ui(text, false);
        messages.push(m);
        let mut downloads: Vec<(i64, i64)> = Vec::new();
        if added.len() > 0 {
            match self.download_new_episodes {
                DownloadNewEpisodes::Always => {
                    let n = added.len();
                    let mut i: usize = 0;
                    while i < n
                        invariant
                            i <= n,
                            n == added@.len(),
                            downloads@ == download_pairs(added@).take(i as int),
                        decreases n - i,
                    {
                        downloads.push((added[i].pod_id, added[i].id));
                        assert(downloads@ =~= download_pairs(added@).take(i as int + 1));
                        i += 1;
                    }
                    assert(downloads@ =~= download_pairs(added@));
                },
                DownloadNewEpisodes::AskSelected => {
                    messages.push(MainMessage::UiSpawnDownloadPopup(added, true));
                },
                DownloadNewEpisodes::AskUnselected => {
                    messages.push(MainMessage::UiSpawnDownloadPopup(added, false));
                },
                DownloadNewEpisodes::Never => {},
            }
        }
        SyncOutcome { messages, downloads }
    }

    /// Counts one feed check of a sync as answered: one less is in flight,
    /// which is reported, and where none is left the batch is closed.
    fn count_answer(&mut self) -> (out: SyncOutcome)
        requires
            old(self).sync_counter > 0,
        ensures
            final(self).podcasts == old(self).podcasts,
            final(self).filters == old(self).filters,
            final(self).download_tracker == old(self).download_tracker,
            final(self).download_new_episodes == old(self).download_new_episodes,
            final(self).sync_counter == old(self).sync_counter - 1,
            final(self).sync_tracker@ == if final(self).sync_counter > 0 {
                old(self).sync_tracker@
            } else {
                Seq::<SyncResult>::empty()
            },
            answer_reported(
                out.messages@,
                out.downloads@,
                old(self).sync_tracker@,
                final(self).sync_counter as nat,
                final(self).download_tracker@.len(),
                old(self).download_new_episodes,
            ),
    {
        self.sync_counter = self.sync_counter - 1;
        let mut messages: Vec<MainMessage> = Vec::new();
        let mut downloads: Vec<(i64, i64)> = Vec::new();
        let m = self.update_tracker_notif();
        messages.push(m);
        if self.sync_counter == 0 {
            let closed = self.finish_batch();
            let SyncOutcome { messages: mut tail, downloads: wanted } = closed;
            let ghost rest = tail@;
            messages.append(&mut tail);
            downloads = wanted;
            assert(messages@.subrange(1, messages@.len() as int) =~= rest);
            assert(self.sync_tracker@ =~= Seq::<SyncResult>::empty());
        }
        SyncOutcome { messages, downloads }
    }

    /// Takes the answer to a feed check into the model, once storage has
    /// been written. `pod_id` is that of the podcast that was synced, or
    /// `None` for a podcast that was to be added; `title` is the feed's
    /// title. `stored` holds what the sync changed and the podcasts as
    /// storage now has them, or nothing where storage failed.
    ///
    /// A storage failure is reported first and leaves podcasts and batch
    /// results as they were. On success the podcasts are taken over (not
    /// where two share an identifier), the filtered orders are recomputed
    /// and the menus drawn again; for an added podcast the number of its
    /// episodes is reported, for a sync the result joins the batch.
    ///
    /// Either way the feed check of a sync has been answered: one less is in
    /// flight, which is reported, and when none is left the batch is closed
    /// as [`MainController::finish_batch`] says.
    pub fn add_or_sync_data(
        &mut self,
        title: &str,
        pod_id: Option<i64>,
        stored: Option<(SyncResult, Vec<Podcast>)>,
    ) -> (out: SyncOutcome)
        requires
            pod_id is Some ==> old(self).sync_counter > 0,
        ensures
            final(self).filters == old(self).filters,
            final(self).download_tracker == old(self).download_tracker,
            final(self).download_new_episodes == old(self).download_new_episodes,
            out.messages@.len() >= 1,
            match stored {
                None => {
                    &&& final(self).podcasts@ == old(self).podcasts@
                    &&& is_notif(out.messages@[0], sync_failure_text(title@, pod_id is Some), true)
                },
                Some(pair) => {
                    &&& final(self).podcasts@ == filtered_model(
                        if ids_of::<Podcast>(views_of(pair.1@)).no_duplicates() {
                            loaded::<Podcast>(views_of(pair.1@))
                        } else {
                            old(self).podcasts@
                        },
                        old(self).filters,
                    )
                    &&& out.messages@[0] is UiUpdateMenus
                },
            },
            pod_id is None ==> {
                &&& final(self).sync_counter == old(self).sync_counter
                &&& final(self).sync_tracker == old(self).sync_tracker
                &&& out.downloads@.len() == 0
                &&& match stored {
                    None => out.messages@.len() == 1,
                    Some(pair) => out.messages@.len() == 2 && is_notif(
                        out.messages@[1],
                        "Successfully added "@ + decimal_digits(pair.0.added@.len()) + " episodes."@,
                        false,
                    ),
                }
            },
            pod_id is Some ==> {
                &&& final(self).sync_counter == old(self).sync_counter - 1
                &&& final(self).sync_tracker@ == if final(self).sync_counter > 0 {
                    batch_with(old(self).sync_tracker@, stored)
                } else {
                    Seq::<SyncResult>::empty()
                }
                &&& answer_reported(
                    out.messages@.subrange(1, out.messages@.len() as int),
                    out.downloads@,
                    batch_with(old(self).sync_tracker@, stored),
                    final(self).sync_counter as nat,
                    final(self).download_tracker@.len(),
                    old(self).download_new_episodes,
                )
            },
    {
        let mut messages: Vec<MainMessage> = Vec::new();
        let ghost batch = batch_with(self.sync_tracker@, stored);
        let mut added_podcast: Option<MainMessage> = None;
        match stored {
            None => {
                let text = match pod_id {
                    Some(_) => {
                        let mut text = String::from_str("Error synchronizing ");
                        text.append(title);
                        text.append(".");
                        text
                    },
                    None => String::from_str("Error adding podcast to database."),
                };
                let m = self.notif_to_ui(text, true);
                messages.push(m);
            },
            Some(pair) => {
                let (result, podcasts) = pair;
                self.podcasts.replace_all(podcasts);
                let filters = self.filters;
                let mut menus = self.update_filters(filters, true);
                messages.append(&mut menus);
                match pod_id {
                    None => {
                        let mut text = String::from_str("Successfully added ");
                        text.append(decimal(result.added.len() as u64).as_str());
                        text.append(" episodes.");
                        let m = self.notif_to_ui(text, false);
                        added_podcast = Some(m);
                    },
                    Some(_) => {
                        self.sync_tracker.push(result);
                    },
                }
            },
        }
        let mut downloads: Vec<(i64, i64)> = Vec::new();
        match pod_id {
            None => {
                match added_podcast {
                    Some(m) => {
                        messages.push(m);
                    },
                    None => {},
                }
            },
            Some(_) => {
                assert(self.sync_tracker@ == batch);
                let answered = self.count_answer();
                let SyncOutcome { messages: mut tail, downloads: wanted } = answered;
                let ghost rest = tail@;
                messages.append(&mut tail);
                downloads = wanted;
                assert(messages@.subrange(1, messages@.len() as int) =~= rest);
            },
        }
        SyncOutcome { messages, downloads }
    }

    /// Steps through the filter of the given type, tells the user the new
    /// status and recomputes the filtered orders under the new filters.
    pub fn filter_change(&mut self, filter_type: FilterType) -> (messages: Vec<
        MainMessage,
    >)
        ensures
            final(self).filters == stepped(old(self).filters, filter_type),
            final(self).podcasts@ == filtered_model(old(self).podcasts@, final(self).filters),
            final(self).sync_counter == old(self).sync_counter,
            final(self).sync_tracker == old(self).sync_tracker,
            final(self).download_tracker == old(self).download_tracker,
            final(self).download_new_episodes == old(self).download_new_episodes,
            messages@.len() == 2,
            is_notif(
                messages@[0],
                "Filter: "@ + filter_label(
                    filter_type,
                    match filter_type {
                        FilterType::Played => final(self).filters.played,
                        FilterType::Downloaded => final(self).filters.downloaded,
                    },
                ),
                false,
            ),
            messages@[1] is UiUpdateMenus,
    {
        let (filters, label) = step_filter(self.filters, filter_type);
        self.filters = filters;
        let mut text = String::from_str("Filter: ");
        text.append(label);
        let mut messages: Vec<MainMessage> = Vec::new();
        let m = self.notif_to_ui(text, false);
        messages.push(m);
        let mut menus = self.update_filters(filters, true);
        messages.append(&mut menus);
        messages
    }

    /// Takes a failed feed check into the model and reports it. A feed with a
    /// known title belongs to a sync: its feed check has been answered, so
    /// one less is in flight, which is reported, and when none is left the
    /// batch is closed. A feed without a title was to be added and was never
    /// counted.
    pub fn feed_error(&mut self, title: Option<String>) -> (out: SyncOutcome)
        requires
            title is Some ==> old(self).sync_counter > 0,
        ensures
            final(self).podcasts == old(self).podcasts,
            final(self).filters == old(self).filters,
            final(self).download_tracker == old(self).download_tracker,
            final(self).download_new_episodes == old(self).download_new_episodes,
            out.messages@.len() >= 1,
            is_notif(
                out.messages@[0],
                match title {
                    Some(t) => "Error retrieving RSS feed for "@ + t@ + "."@,
                    None => "Error retrieving RSS feed."@,
                },
                true,
            ),
            title is None ==> {
                &&& final(self).sync_counter == old(self).sync_counter
                &&& final(self).sync_tracker == old(self).sync_tracker
                &&& out.messages@.len() == 1
                &&& out.downloads@.len() == 0
            },
            title is Some ==> {
                &&& final(self).sync_counter == old(self).sync_counter - 1
                &&& final(self).sync_tracker@ == if final(self).sync_counter > 0 {
                    old(self).sync_tracker@
                } else {
                    Seq::<SyncResult>::empty()
                }
                &&& answer_reported(
                    out.messages@.subrange(1, out.messages@.len() as int),
                    out.downloads@,
                    old(self).sync_tracker@,
                    final(self).sync_counter as nat,
                    final(self).download_tracker@.len(),
                    old(self).download_new_episodes,
                )
            },
    {
        let mut messages: Vec<MainMessage> = Vec::new();
        match title {
            Some(t) => {
                let mut text = String::from_str("Error retrieving RSS feed for ");
                text.append(t.as_str());
                text.append(".");
                let m = self.notif_to_ui(text, true);
                messages.push(m);
                let answered = self.count_answer();
                let SyncOutcome { messages: mut tail, downloads } = answered;
                let ghost rest = tail@;
                messages.append(&mut tail);
                assert(messages@.subrange(1, messages@.len() as int) =~= rest);
                SyncOutcome { messages, downloads }
            },
            None => {
                let m = self.notif_to_ui(String::from_str("Error retrieving RSS feed."), true);
                messages.push(m);
                SyncOutcome { messages, downloads: Vec::new() }
            },
        }
    }

    /// Handles a message that calls for no outside work and returns what is
    /// left to do: a filter change as [`MainController::filter_change`]
    /// says, a failed feed check as [`MainController::feed_error`] says, a
    /// failed download as [`MainController::download_error`] says. Any other
    /// message comes back untouched, with nothing changed: its handler needs
    /// an answer from storage, disk, network or player first.
    pub fn handle_message(&mut self, message: Message) -> (out: Result<SyncOutcome, Message>)
        requires
            message matches Message::Feed(FeedMsg::Error(feed)) ==> (feed.title is Some
                ==> old(self).sync_counter > 0),
        ensures
            out is Ok <==> needs_no_outside_work(message),
            out matches Err(back) ==> back == message && *final(self) == *old(self),
            final(self).download_new_episodes == old(self).download_new_episodes,
            out matches Ok(done) ==> match message {
                Message::Ui(UiMsg::FilterChange(filter_type)) => {
                    &&& final(self).filters == stepped(old(self).filters, filter_type)
                    &&& final(self).podcasts@ == filtered_model(
                        old(self).podcasts@,
                        final(self).filters,
                    )
                    &&& final(self).sync_counter == old(self).sync_counter
                    &&& final(self).sync_tracker == old(self).sync_tracker
                    &&& final(self).download_tracker == old(self).download_tracker
                    &&& done.downloads@.len() == 0
                    &&& done.messages@.len() == 2
                    &&& is_notif(
                        done.messages@[0],
                        "Filter: "@ + filter_label(
                            filter_type,
                            match filter_type {
                                FilterType::Played => final(self).filters.played,
                                FilterType::Downloaded => {
                                    final(self).filters.downloaded
                                },
                            },
                        ),
                        false,
                    )
                    &&& done.messages@[1] is UiUpdateMenus
                },
                Message::Feed(FeedMsg::Error(feed)) => {
                    &&& final(self).podcasts == old(self).podcasts
                    &&& final(self).filters == old(self).filters
                    &&& final(self).download_tracker == old(self).download_tracker
                    &&& done.messages@.len() >= 1
                    &&& is_notif(
                        done.messages@[0],
                        match feed.title {
                            Some(t) => "Error retrieving RSS feed for "@ + t@ + "."@,
                            None => "Error retrieving RSS feed."@,
                        },
                        true,
                    )
                    &&& feed.title is None ==> {
                        &&& final(self).sync_counter == old(self).sync_counter
                        &&& final(self).sync_tracker == old(self).sync_tracker
                        &&& done.messages@.len() == 1
                        &&& done.downloads@.len() == 0
                    }
                    &&& feed.title is Some ==> {
                        &&& final(self).sync_counter == old(self).sync_counter - 1
                        &&& final(self).sync_tracker@ == if final(self).sync_counter > 0 {
                            old(self).sync_tracker@
                        } else {
                            Seq::<SyncResult>::empty()
                        }
                        &&& answer_reported(
                            done.messages@.subrange(1, done.messages@.len() as int),
                            done.downloads@,
                            old(self).sync_tracker@,
                            final(self).sync_counter as nat,
                            final(self).download_tracker@.len(),
                            old(self).download_new_episodes,
                        )
                    }
                },
                Message::Dl(failed) => {
                    &&& final(self).podcasts == old(self).podcasts
                    &&& final(self).filters == old(self).filters
                    &&& final(self).sync_counter == old(self).sync_counter
                    &&& final(self).sync_tracker == old(self).sync_tracker
                    &&& final(self).download_tracker@ == old(self).download_tracker@.remove(
                        failed_episode(failed).id,
                    )
                    &&& done.downloads@.len() == 0
                    &&& done.messages@.len() == 2
                    &&& is_notif(
                        done.messages@[0],
                        download_failure_text(failure_of(failed)),
                        true,
                    )
                    &&& is_tracker_message(
                        done.messages@[1],
                        final(self).sync_counter as nat,
                        final(self).download_tracker@.len(),
                    )
                },
                _ => *final(self) == *old(self) && done.messages@.len() == 0
                    && done.downloads@.len() == 0,
            },
    {
        match message {
            Message::Ui(UiMsg::FilterChange(filter_type)) => {
                let messages = self.filter_change(filter_type);
                Ok(SyncOutcome { messages, downloads: Vec::new() })
            },
            Message::Ui(UiMsg::Noop) => Ok(
                SyncOutcome { messages: Vec::new(), downloads: Vec::new() },
            ),
            Message::Feed(FeedMsg::Error(feed)) => Ok(self.feed_error(feed.title)),
            Message::Dl(DownloadMsg::ResponseError(ep)) => {
                let messages = self.download_error(ep.id, DownloadFailure::Response);
                Ok(SyncOutcome { messages, downloads: Vec::new() })
            },
            Message::Dl(DownloadMsg::FileCreateError(ep)) => {
                let messages = self.download_error(ep.id, DownloadFailure::FileCreate);
                Ok(SyncOutcome { messages, downloads: Vec::new() })
            },
            Message::Dl(DownloadMsg::FileWriteError(ep)) => {
                let messages = self.download_error(ep.id, DownloadFailure::FileWrite);
                Ok(SyncOutcome { messages, downloads: Vec::new() })
            },
            other => Err(other),
        }
    }
}

} // verus!
