//! The controller's handlers for episodes and podcasts: playing, marking
//! as played, and removing.

use crate::filters::filtered_model;
use crate::main_controller::is_notif;
use crate::main_controller::MainController;
use crate::main_controller::MainMessage;
use crate::store::ids_of;
use crate::store::lemma_prefix_grows;
use crate::store::loaded;
use crate::store::views_of;
use crate::store::StoreView;
use crate::types::Episode;
use crate::types::EpisodeView;
use crate::types::Filters;
use crate::types::Podcast;
use crate::types::PodcastView;
use vstd::prelude::*;
use vstd::string::StringExecFns;

verus! {

/// Whether podcast `pod_id` is stored and holds episode `ep_id`.
pub open spec fn has_episode(pods: StoreView<PodcastView>, pod_id: i64, ep_id: i64) -> bool {
    pods.map.contains_key(pod_id) && pods.map[pod_id].episodes.map.contains_key(ep_id)
}

/// Episode `ep_id` of podcast `pod_id`.
pub open spec fn episode_at(pods: StoreView<PodcastView>, pod_id: i64, ep_id: i64) -> EpisodeView {
    pods.map[pod_id].episodes.map[ep_id]
}

/// The podcasts with the episodes of podcast `pod_id` replaced by `eps`;
/// unchanged where that podcast is not stored.
pub open spec fn with_episodes(
    pods: StoreView<PodcastView>,
    pod_id: i64,
    eps: StoreView<EpisodeView>,
) -> StoreView<PodcastView> {
    if pods.map.contains_key(pod_id) {
        StoreView {
            map: pods.map.insert(pod_id, PodcastView { episodes: eps, ..pods.map[pod_id] }),
            ..pods
        }
    } else {
        pods
    }
}

/// The podcasts with `ep` written over the episode of its identifier in
/// podcast `pod_id`; unchanged where the podcast does not hold it.
pub open spec fn with_episode(pods: StoreView<PodcastView>, pod_id: i64, ep: EpisodeView) -> StoreView<
    PodcastView,
> {
    if has_episode(pods, pod_id, ep.id) {
        let eps = pods.map[pod_id].episodes;
        with_episodes(pods, pod_id, StoreView { map: eps.map.insert(ep.id, ep), ..eps })
    } else {
        pods
    }
}

/// What to hand to the player.
#[derive(Debug, Clone, PartialEq, Eq)]
pub enum PlayTarget {
    /// The local file of a downloaded episode.
    File(String),
    /// The remote address of an episode that is not downloaded.
    Url(String),
}

/// The target for playing an episode: its local file where it has one, else
/// its remote address.
pub open spec fn is_play_target(t: PlayTarget, ep: EpisodeView) -> bool {
    match ep.path {
        Some(path) => t matches PlayTarget::File(p) && p@ == path,
        None => t matches PlayTarget::Url(u) && u@ == ep.url,
    }
}

/// What the user is told where storage did not take a played flag.
pub open spec fn mark_failure_text() -> Seq<char> {
    "Could not update played status in database"@
}

/// What marking episode `ep_id` of podcast `pod_id` leaves, given whether
/// storage took the flag: the episode marked and the filtered orders
/// recomputed, with the menus to be drawn again; or, where storage failed,
/// the podcasts as they were and the failure reported; or nothing at all,
/// where the episode is not stored.
pub open spec fn marked(
    before: StoreView<PodcastView>,
    after: StoreView<PodcastView>,
    messages: Seq<MainMessage>,
    filters: Filters,
    pod_id: i64,
    ep_id: i64,
    played: bool,
    persisted: bool,
) -> bool {
    if !has_episode(before, pod_id, ep_id) {
        after == before && messages.len() == 0
    } else if !persisted {
        after == before && messages.len() == 1 && is_notif(messages[0], mark_failure_text(), true)
    } else {
        &&& after == filtered_model(
            with_episode(
                before,
                pod_id,
                EpisodeView { played, ..episode_at(before, pod_id, ep_id) },
            ),
            filters,
        )
        &&& messages == seq![MainMessage::UiUpdateMenus]
    }
}

/// The episodes with the played flag set to `played` for each one whose
/// identifier is in `done`.
pub open spec fn marked_among(
    eps: StoreView<EpisodeView>,
    done: Set<i64>,
    played: bool,
) -> StoreView<EpisodeView> {
    StoreView {
        map: Map::new(
            |id: i64| eps.map.contains_key(id),
            |id: i64|
                if done.contains(id) {
                    EpisodeView { played, ..eps.map[id] }
                } else {
                    eps.map[id]
                },
        ),
        ..eps
    }
}

impl MainController {
    /// An owned copy of episode `ep_id` of podcast `pod_id`.
    pub fn clone_episode(&self, pod_id: i64, ep_id: i64) -> (copy: Option<Episode>)
        ensures
            copy is Some <==> has_episode(self.podcasts@, pod_id, ep_id),
            copy matches Some(e) ==> e@ == episode_at(self.podcasts@, pod_id, ep_id),
    {
        match self.podcasts.get(pod_id) {
            Some(pod) => pod.episodes.clone_entity(ep_id),
            None => None,
        }
    }

    /// Writes `episode` over the stored episode of its identifier in podcast
    /// `pod_id`: the podcast is copied out, changed and written back.
    pub(crate) fn put_episode(&mut self, pod_id: i64, episode: Episode)
        ensures
            final(self).podcasts@ == with_episode(old(self).podcasts@, pod_id, episode@),
            final(self).same_bookkeeping(old(self)),
    {
        self.podcasts.check_wf();
        match self.podcasts.clone_entity(pod_id) {
            Some(pod) => {
                let mut pod = pod;
                pod.episodes.check_wf();
                let ghost ep = episode@;
                pod.episodes.replace(episode.id, episode);
                proof {
                    if !has_episode(old(self).podcasts@, pod_id, ep.id) {
                        assert(pod@ == old(self).podcasts@.map[pod_id]);
                    }
                }
                self.podcasts.replace(pod_id, pod);
                proof {
                    if !has_episode(old(self).podcasts@, pod_id, ep.id) {
                        assert(self.podcasts@.map =~= old(self).podcasts@.map);
                    }
                }
            },
            None => {},
        }
    }

    /// Marks an episode as played or unplayed, once storage has been asked
    /// to; `persisted` says whether storage took the flag. Where it did, the
    /// flag is set and the filtered orders are recomputed. Where it did not,
    /// the model stays as it was and the failure is reported. An episode
    /// that is no longer stored is passed over: nothing changes and nothing
    /// is sent.
    pub fn mark_played(&mut self, pod_id: i64, ep_id: i64, played: bool, persisted: bool) -> (messages:
        Vec<MainMessage>)
        ensures
            final(self).same_bookkeeping(old(self)),
            marked(
                old(self).podcasts@,
                final(self).podcasts@,
                messages@,
                old(self).filters,
                pod_id,
                ep_id,
                played,
                persisted,
            ),
    {
        match self.clone_episode(pod_id, ep_id) {
            Some(episode) => {
                if persisted {
                    let mut episode = episode;
                    episode.played = played;
                    self.put_episode(pod_id, episode);
                    let filters = self.filters;
                    self.update_filters(filters, true)
                } else {
                    let mut messages: Vec<MainMessage> = Vec::new();
                    let m = self.notif_to_ui(
                        String::from_str("Could not update played status in database"),
                        true,
                    );
                    messages.push(m);
                    messages
                }
            },
            None => Vec::new(),
        }
    }

    /// Plays an episode: marks it as played, as
    /// [`MainController::mark_played`] does with what storage answered, and
    /// names what to hand to the player: the local file where the episode
    /// has one, its remote address where it has none. An episode that is no
    /// longer stored is passed over.
    pub fn play_file(&mut self, pod_id: i64, ep_id: i64, persisted: bool) -> (out: (
        Vec<MainMessage>,
        Option<PlayTarget>,
    ))
        ensures
            final(self).same_bookkeeping(old(self)),
            marked(
                old(self).podcasts@,
                final(self).podcasts@,
                out.0@,
                old(self).filters,
                pod_id,
                ep_id,
                true,
                persisted,
            ),
            out.1 is Some <==> has_episode(old(self).podcasts@, pod_id, ep_id),
            out.1 matches Some(t) ==> is_play_target(
                t,
                episode_at(old(self).podcasts@, pod_id, ep_id),
            ),
    {
        match self.clone_episode(pod_id, ep_id) {
            Some(episode) => {
                let messages = self.mark_played(pod_id, ep_id, true, persisted);
                let target = match episode.path {
                    Some(path) => PlayTarget::File(path),
                    None => PlayTarget::Url(episode.url),
                };
                (messages, Some(target))
            },
            None => (Vec::new(), None),
        }
    }

    /// The notification for a player that could not be started on `target`.
    pub fn play_failed(&self, target: &PlayTarget) -> (m: MainMessage)
        ensures
            is_notif(
                m,
                match target {
                    PlayTarget::File(_) => "Error: Could not play file. Check configuration."@,
                    PlayTarget::Url(_) => "Error: Could not stream URL."@,
                },
                true,
            ),
    {
        match target {
            PlayTarget::File(_) => self.notif_to_ui(
                String::from_str("Error: Could not play file. Check configuration."),
                true,
            ),
            PlayTarget::Url(_) => self.notif_to_ui(
                String::from_str("Error: Could not stream URL."),
                true,
            ),
        }
    }

    /// The identifiers of the episodes of podcast `pod_id`, in canonical
    /// order; none where the podcast is not stored.
    pub fn episode_ids(&self, pod_id: i64) -> (ids: Vec<i64>)
        ensures
            ids@ == if self.podcasts@.map.contains_key(pod_id) {
                self.podcasts@.map[pod_id].episodes.order
            } else {
                Seq::<i64>::empty()
            },
    {
        match self.podcasts.get(pod_id) {
            Some(pod) => pod.episodes.borrow_order().clone(),
            None => Vec::new(),
        }
    }

    /// Replaces the episodes of podcast `pod_id` by `episodes`: the podcast
    /// is copied out, changed and written back. Returns whether anything was
    /// written: the podcast must be stored and the episodes must have
    /// distinct identifiers.
    pub(crate) fn put_episodes(&mut self, pod_id: i64, episodes: Vec<Episode>) -> (done: bool)
        ensures
            final(self).same_bookkeeping(old(self)),
            done == (old(self).podcasts@.map.contains_key(pod_id) && ids_of::<Episode>(
                views_of(episodes@),
            ).no_duplicates()),
            final(self).podcasts@ == if done {
                with_episodes(
                    old(self).podcasts@,
                    pod_id,
                    loaded::<Episode>(views_of(episodes@)),
                )
            } else {
                old(self).podcasts@
            },
    {
        self.podcasts.check_wf();
        match self.podcasts.clone_entity(pod_id) {
            Some(pod) => {
                let mut pod = pod;
                if pod.episodes.replace_all(episodes) {
                    self.podcasts.replace(pod_id, pod);
                    true
                } else {
                    false
                }
            },
            None => false,
        }
    }

    /// Marks episodes of podcast `pod_id` as played or unplayed, once storage
    /// has been asked to for each of them. `persisted` names the episodes
    /// whose flag storage took: each of them is marked, whatever became of
    /// the others, and the filtered orders are recomputed. `all_persisted`
    /// says whether storage took every flag; where it did not, the failure
    /// is reported after the menus. A podcast that is no longer stored is
    /// passed over.
    pub fn mark_all_played(
        &mut self,
        pod_id: i64,
        played: bool,
        persisted: &Vec<i64>,
        all_persisted: bool,
    ) -> (messages: Vec<MainMessage>)
        ensures
            final(self).same_bookkeeping(old(self)),
            if old(self).podcasts@.map.contains_key(pod_id) {
                &&& final(self).podcasts@ == filtered_model(
                    with_episodes(
                        old(self).podcasts@,
                        pod_id,
                        marked_among(
                            old(self).podcasts@.map[pod_id].episodes,
                            persisted@.to_set(),
                            played,
                        ),
                    ),
                    old(self).filters,
                )
                &&& messages@.len() == if all_persisted {
                    1int
                } else {
                    2int
                }
                &&& messages@[0] is UiUpdateMenus
                &&& !all_persisted ==> is_notif(messages@[1], mark_failure_text(), true)
            } else {
                &&& final(self).podcasts@ == old(self).podcasts@
                &&& messages@.len() == 0
            },
    {
        self.podcasts.check_wf();
        match self.podcasts.clone_entity(pod_id) {
            None => Vec::new(),
            Some(pod) => {
                let mut pod = pod;
                let ghost eps = pod.episodes@;
                let n = persisted.len();
                let mut i: usize = 0;
                assert(pod.episodes@.map =~= marked_among(
                    eps,
                    persisted@.take(0).to_set(),
                    played,
                ).map);
                while i < n
                    invariant
                        i <= n,
                        n == persisted@.len(),
                        eps == old(self).podcasts@.map[pod_id].episodes,
                        pod@ == (PodcastView {
                            episodes: pod.episodes@,
                            ..old(self).podcasts@.map[pod_id]
                        }),
                        pod.episodes@ == marked_among(
                            eps,
                            persisted@.take(i as int).to_set(),
                            played,
                        ),
                    decreases n - i,
                {
                    let id = persisted[i];
                    proof {
                        lemma_prefix_grows(persisted@, i as int);
                    }
                    pod.episodes.check_wf();
                    match pod.episodes.clone_entity(id) {
                        Some(ep) => {
                            let mut ep = ep;
                            ep.played = played;
                            pod.episodes.replace(id, ep);
                        },
                        None => {},
                    }
                    assert(pod.episodes@.map =~= marked_among(
                        eps,
                        persisted@.take(i as int + 1).to_set(),
                        played,
                    ).map);
                    i += 1;
                }
                assert(persisted@.take(n as int) =~= persisted@);
                self.podcasts.replace(pod_id, pod);
                let filters = self.filters;
                let mut messages = self.update_filters(filters, true);
                if !all_persisted {
                    let m = self.notif_to_ui(
                        String::from_str("Could not update played status in database"),
                        true,
                    );
                    messages.push(m);
                }
                messages
            },
        }
    }

    /// Takes over the episodes of podcast `pod_id` as storage holds them
    /// once an episode has been hidden there, and recomputes the filtered
    /// orders under the active filters. Passed over where the podcast is no
    /// longer stored or two of the episodes share an identifier.
    pub fn remove_episode(&mut self, pod_id: i64, episodes: Vec<Episode>) -> (messages: Vec<
        MainMessage,
    >)
        ensures
            final(self).same_bookkeeping(old(self)),
            if old(self).podcasts@.map.contains_key(pod_id) && ids_of::<Episode>(
                views_of(episodes@),
            ).no_duplicates() {
                &&& final(self).podcasts@ == filtered_model(
                    with_episodes(
                        old(self).podcasts@,
                        pod_id,
                        loaded::<Episode>(views_of(episodes@)),
                    ),
                    old(self).filters,
                )
                &&& messages@ == seq![MainMessage::UiUpdateMenus]
            } else {
                &&& final(self).podcasts@ == old(self).podcasts@
                &&& messages@.len() == 0
            },
    {
        if self.put_episodes(pod_id, episodes) {
            let filters = self.filters;
            self.update_filters(filters, true)
        } else {
            Vec::new()
        }
    }

    /// Removes every episode of podcast `pod_id` from the model, recomputes
    /// the filtered orders under the active filters, and returns the
    /// identifiers to hide in storage, in canonical order. Passed over where
    /// the podcast is no longer stored.
    pub fn remove_all_episodes(&mut self, pod_id: i64) -> (out: (Vec<i64>, Vec<MainMessage>))
        ensures
            final(self).same_bookkeeping(old(self)),
            if old(self).podcasts@.map.contains_key(pod_id) {
                &&& out.0@ == old(self).podcasts@.map[pod_id].episodes.order
                &&& final(self).podcasts@ == filtered_model(
                    with_episodes(
                        old(self).podcasts@,
                        pod_id,
                        loaded::<Episode>(Seq::empty()),
                    ),
                    old(self).filters,
                )
                &&& out.1@ == seq![MainMessage::UiUpdateMenus]
            } else {
                &&& out.0@.len() == 0
                &&& final(self).podcasts@ == old(self).podcasts@
                &&& out.1@.len() == 0
            },
    {
        let ids = self.episode_ids(pod_id);
        let none: Vec<Episode> = Vec::new();
        assert(views_of(none@) =~= Seq::<EpisodeView>::empty());
        if self.put_episodes(pod_id, none) {
            let filters = self.filters;
            let messages = self.update_filters(filters, true);
            (ids, messages)
        } else {
            (ids, Vec::new())
        }
    }

    /// Takes over the podcasts as storage holds them once a podcast has been
    /// removed there, and recomputes the filtered orders under the active
    /// filters; `refreshed` is `None` where storage refused the removal,
    /// which is reported and changes nothing. Podcasts that share an
    /// identifier are not taken over.
    pub fn remove_podcast(&mut self, refreshed: Option<Vec<Podcast>>) -> (messages: Vec<MainMessage>)
        ensures
            final(self).same_bookkeeping(old(self)),
            messages@.len() == 1,
            match refreshed {
                None => {
                    &&& final(self).podcasts@ == old(self).podcasts@
                    &&& is_notif(messages@[0], "Could not remove podcast from database"@, true)
                },
                Some(pods) => {
                    &&& final(self).podcasts@ == filtered_model(
                        if ids_of::<Podcast>(views_of(pods@)).no_duplicates() {
                            loaded::<Podcast>(views_of(pods@))
                        } else {
                            old(self).podcasts@
                        },
                        old(self).filters,
                    )
                    &&& messages@[0] is UiUpdateMenus
                },
            },
    {
        match refreshed {
            None => {
                let mut messages: Vec<MainMessage> = Vec::new();
                let m = self.notif_to_ui(
                    String::from_str("Could not remove podcast from database"),
                    true,
                );
                messages.push(m);
                messages
            },
            Some(pods) => {
                self.podcasts.replace_all(pods);
                let filters = self.filters;
                self.update_filters(filters, true)
            },
        }
    }
}

} // verus!
