//! The controller's handlers for downloads and downloaded files, with the
//! bookkeeping of what is in flight.

use crate::episodes::episode_at;
use crate::episodes::has_episode;
use crate::episodes::with_episode;
use crate::episodes::with_episodes;
use crate::filters::filtered_model;
use crate::main_controller::is_notif;
use crate::main_controller::is_tracker_message;
use crate::main_controller::MainController;
use crate::main_controller::MainMessage;
use crate::store::lemma_prefix_grows;
use crate::store::StoreView;
use crate::types::EpData;
use crate::types::EpisodeView;
use crate::types::PodcastView;
use vstd::prelude::*;
use vstd::string::StringExecFns;

verus! {

broadcast use vstd::std_specs::hash::group_hash_axioms;

/// The test that an episode identifier passes where the episode has no
/// local file and no download of it is in flight.
pub open spec fn wanted(eps: Map<i64, EpisodeView>, in_flight: Set<i64>) -> spec_fn(i64) -> bool {
    |id: i64| eps[id].path is None && !in_flight.contains(id)
}

/// The identifiers of the episodes to download: of the one episode asked
/// for, or of all episodes in canonical order, those that have no local file
/// and are not being downloaded already.
pub open spec fn candidate_ids(
    eps: StoreView<EpisodeView>,
    in_flight: Set<i64>,
    ep_id: Option<i64>,
) -> Seq<i64> {
    match ep_id {
        Some(id) => if eps.map.contains_key(id) && wanted(eps.map, in_flight)(id) {
            seq![id]
        } else {
            Seq::empty()
        },
        None => eps.order.filter(wanted(eps.map, in_flight)),
    }
}

/// The identifiers of the episodes to download for a request on podcast
/// `pod_id`; none where the podcast is not stored.
pub open spec fn download_ids(
    pods: StoreView<PodcastView>,
    in_flight: Set<i64>,
    pod_id: i64,
    ep_id: Option<i64>,
) -> Seq<i64> {
    if pods.map.contains_key(pod_id) {
        candidate_ids(pods.map[pod_id].episodes, in_flight, ep_id)
    } else {
        Seq::empty()
    }
}

/// The download descriptor is that of a stored episode, with no file yet.
pub open spec fn ep_data_for(d: EpData, ep: EpisodeView) -> bool {
    &&& d.id == ep.id
    &&& d.pod_id == ep.pod_id
    &&& d.title@ == ep.title
    &&& d.url@ == ep.url
    &&& d.pubdate == ep.pubdate
    &&& d.file_path is None
}

/// The download descriptors are those of the episodes `ids` of `eps`.
pub open spec fn ep_data_match(
    data: Seq<EpData>,
    ids: Seq<i64>,
    eps: Map<i64, EpisodeView>,
) -> bool {
    &&& data.len() == ids.len()
    &&& forall|i: int| 0 <= i < data.len() ==> ep_data_for(#[trigger] data[i], eps[ids[i]])
}

/// The identifiers that the download descriptors name, in order.
pub open spec fn data_id_seq(data: Seq<EpData>) -> Seq<i64> {
    Seq::new(data.len(), |i: int| data[i].id)
}

/// The identifiers that the download descriptors name.
pub open spec fn data_ids(data: Seq<EpData>) -> Set<i64> {
    data_id_seq(data).to_set()
}

/// Result of `sanitize_filename::sanitize_with_options` on a name, with the
/// options' `windows` and `truncate` flags and replacement text.
pub uninterp spec fn sanitized_name(
    name: Seq<char>,
    windows: bool,
    truncate: bool,
    replacement: Seq<char>,
) -> Seq<char>;

/// `sanitize_filename::sanitize_with_options`: the contract gives the
/// result a name and claims nothing more of it.
#[verifier::external_body]
fn sanitize_name(name: &str, windows: bool, truncate: bool, replacement: &str) -> (out: String)
    ensures
        out@ == sanitized_name(name@, windows, truncate, replacement@),
{
    sanitize_filename::sanitize_with_options(
        name,
        sanitize_filename::Options { windows, truncate, replacement },
    )
}

/// What to download, and where to: the episodes, the title of their podcast
/// and the name of the directory for its files.
#[derive(Debug, Clone, PartialEq, Eq)]
pub struct DownloadRequest {
    pub pod_title: String,
    pub dir_name: String,
    pub episodes: Vec<EpData>,
}

/// A download never starts for an episode whose download is in flight: an
/// identifier of the tracking set is not among the episodes to download.
pub proof fn lemma_in_flight_is_not_dispatched(
    pods: StoreView<PodcastView>,
    in_flight: Set<i64>,
    pod_id: i64,
    ep_id: Option<i64>,
    id: i64,
)
    requires
        in_flight.contains(id),
    ensures
        !download_ids(pods, in_flight, pod_id, ep_id).contains(id),
{
    if pods.map.contains_key(pod_id) {
        let eps = pods.map[pod_id].episodes;
        let ids = candidate_ids(eps, in_flight, ep_id);
        if ids.contains(id) {
            let i = choose|i: int| 0 <= i < ids.len() && ids[i] == id;
            if ep_id is None {
                eps.order.lemma_filter_pred(wanted(eps.map, in_flight), i);
            }
        }
    }
}

/// The podcasts once the download of episode `ep_id` of podcast `pod_id`
/// has left the file `path`; unchanged where the episode is not stored.
pub open spec fn with_path(
    pods: StoreView<PodcastView>,
    pod_id: i64,
    ep_id: i64,
    path: Option<Seq<char>>,
) -> StoreView<PodcastView> {
    if has_episode(pods, pod_id, ep_id) {
        with_episode(pods, pod_id, EpisodeView { path, ..episode_at(pods, pod_id, ep_id) })
    } else {
        pods
    }
}

/// Whether episode `ep_id` of podcast `pod_id` is stored with a local file.
pub open spec fn has_file(pods: StoreView<PodcastView>, pod_id: i64, ep_id: i64) -> bool {
    has_episode(pods, pod_id, ep_id) && episode_at(pods, pod_id, ep_id).path is Some
}

/// The test that an episode identifier passes where the episode has a local
/// file.
pub open spec fn with_file(eps: Map<i64, EpisodeView>) -> spec_fn(i64) -> bool {
    |id: i64| eps[id].path is Some
}

/// The files are those of the episodes `ids` of `eps`, each with the
/// identifier of its episode.
pub open spec fn files_match(
    files: Seq<(i64, String)>,
    ids: Seq<i64>,
    eps: Map<i64, EpisodeView>,
) -> bool {
    &&& files.len() == ids.len()
    &&& forall|i: int|
        0 <= i < files.len() ==> (#[trigger] files[i]).0 == ids[i] && Some(files[i].1@)
            == eps[ids[i]].path
}

/// The episodes with the path taken from each one whose identifier is in
/// `deleted`.
pub open spec fn cleared(eps: StoreView<EpisodeView>, deleted: Set<i64>) -> StoreView<EpisodeView> {
    StoreView {
        map: Map::new(
            |id: i64| eps.map.contains_key(id),
            |id: i64|
                if deleted.contains(id) {
                    EpisodeView { path: None, ..eps.map[id] }
                } else {
                    eps.map[id]
                },
        ),
        ..eps
    }
}

/// What the user is told of a failed download.
pub open spec fn download_failure_text(failure: DownloadFailure) -> Seq<char> {
    match failure {
        DownloadFailure::Response => "Error sending download request."@,
        DownloadFailure::FileCreate => "Error creating file."@,
        DownloadFailure::FileWrite => "Error downloading episode."@,
    }
}

/// How a download can fail.
#[derive(Debug, Clone, Copy, PartialEq, Eq, Structural)]
pub enum DownloadFailure {
    /// The request could not be sent.
    Response,
    /// The file could not be created.
    FileCreate,
    /// Writing the file failed halfway.
    FileWrite,
}

impl MainController {
    /// The episodes to download for a request on podcast `pod_id`: the one
    /// episode asked for, or all of them in canonical order, without those
    /// that have a local file and those whose download is in flight.
    pub fn download_candidates(&self, pod_id: i64, ep_id: Option<i64>) -> (data: Vec<EpData>)
        ensures
            self.podcasts@.map.contains_key(pod_id) ==> ep_data_match(
                data@,
                download_ids(self.podcasts@, self.download_tracker@, pod_id, ep_id),
                self.podcasts@.map[pod_id].episodes.map,
            ),
            !self.podcasts@.map.contains_key(pod_id) ==> data@.len() == 0,
    {
        let mut data: Vec<EpData> = Vec::new();
        match self.podcasts.get(pod_id) {
            None => {},
            Some(pod) => {
                pod.episodes.check_wf();
                let ghost eps = pod.episodes@;
                let ghost want = wanted(eps.map, self.download_tracker@);
                match ep_id {
                    Some(id) => {
                        match pod.episodes.get(id) {
                            Some(ep) => {
                                if ep.path.is_none() && !self.download_tracker.contains(&id) {
                                    data.push(
                                        EpData {
                                            id: ep.id,
                                            pod_id: ep.pod_id,
                                            title: ep.title.clone(),
                                            url: ep.url.clone(),
                                            pubdate: ep.pubdate,
                                            file_path: None,
                                        },
                                    );
                                }
                            },
                            None => {},
                        }
                    },
                    None => {
                        let order = pod.episodes.borrow_order();
                        let n = order.len();
                        let ghost mut ids: Seq<i64> = Seq::empty();
                        assert(order@.take(0) =~= Seq::<i64>::empty());
                        assert(Seq::<i64>::empty().filter(want) =~= Seq::<i64>::empty()) by {
                            reveal(Seq::filter);
                        }
                        let mut i: usize = 0;
                        while i < n
                            invariant
                                i <= n,
                                n == order@.len(),
                                order@ == eps.order,
                                eps == pod.episodes@,
                                pod.episodes.wf(),
                                want == wanted(eps.map, self.download_tracker@),
                                ids == order@.take(i as int).filter(want),
                                ep_data_match(data@, ids, eps.map),
                            decreases n - i,
                        {
                            let id = order[i];
                            assert(eps.order.contains(id));
                            proof {
                                assert(order@.take(i as int + 1) =~= order@.take(i as int).push(
                                    id,
                                ));
                                order@.take(i as int).lemma_filter_push(id, want);
                            }
                            match pod.episodes.get(id) {
                                Some(ep) => {
                                    if ep.path.is_none() && !self.download_tracker.contains(&id) {
                                        data.push(
                                            EpData {
                                                id: ep.id,
                                                pod_id: ep.pod_id,
                                                title: ep.title.clone(),
                                                url: ep.url.clone(),
                                                pubdate: ep.pubdate,
                                                file_path: None,
                                            },
                                        );
                                        proof {
                                            ids = ids.push(id);
                                        }
                                    }
                                },
                                None => {
                                    assert(false);
                                },
                            }
                            i += 1;
                        }
                        assert(order@.take(n as int) =~= order@);
                    },
                }
            },
        }
        data
    }

    /// Prepares a download for podcast `pod_id`: of the episode `ep_id`, or
    /// of every episode where it is `None`. The request names the episodes to
    /// download and the directory for them, whose name is the podcast's
    /// title made fit for a file name. There is no request where nothing is
    /// left to download. Nothing is counted as in flight yet.
    pub fn download(&self, pod_id: i64, ep_id: Option<i64>) -> (request: Option<DownloadRequest>)
        ensures
            request is Some <==> download_ids(
                self.podcasts@,
                self.download_tracker@,
                pod_id,
                ep_id,
            ).len() > 0,
            request matches Some(r) ==> {
                &&& self.podcasts@.map.contains_key(pod_id)
                &&& r.pod_title@ == self.podcasts@.map[pod_id].title
                &&& r.dir_name@ == sanitized_name(self.podcasts@.map[pod_id].title, true, true, ""@)
                &&& ep_data_match(
                    r.episodes@,
                    download_ids(self.podcasts@, self.download_tracker@, pod_id, ep_id),
                    self.podcasts@.map[pod_id].episodes.map,
                )
            },
    {
        let episodes = self.download_candidates(pod_id, ep_id);
        if episodes.len() == 0 {
            return None;
        }
        match self.podcasts.get(pod_id) {
            Some(pod) => {
                let dir_name = sanitize_name(pod.title.as_str(), true, true, "");
                Some(DownloadRequest { pod_title: pod.title.clone(), dir_name, episodes })
            },
            None => None,
        }
    }

    /// Starts the downloads of a request once its directory has been
    /// created: every episode of the request is counted as in flight. Where
    /// the directory could not be created, nothing is counted and the
    /// failure is reported. The last message reports what is in flight.
    pub fn queue_downloads(&mut self, request: &DownloadRequest, dir_created: bool) -> (messages: Vec<
        MainMessage,
    >)
        ensures
            final(self).podcasts@ == old(self).podcasts@,
            final(self).filters == old(self).filters,
            final(self).sync_counter == old(self).sync_counter,
            final(self).sync_tracker == old(self).sync_tracker,
            final(self).download_new_episodes == old(self).download_new_episodes,
            final(self).download_tracker@ == if dir_created {
                old(self).download_tracker@.union(data_ids(request.episodes@))
            } else {
                old(self).download_tracker@
            },
            messages@.len() == if dir_created {
                1int
            } else {
                2int
            },
            !dir_created ==> is_notif(
                messages@[0],
                "Could not create dir: "@ + request.pod_title@,
                true,
            ),
            is_tracker_message(
                messages@.last(),
                final(self).sync_counter as nat,
                final(self).download_tracker@.len(),
            ),
    {
        let mut messages: Vec<MainMessage> = Vec::new();
        if dir_created {
            let n = request.episodes.len();
            let ghost ids = data_id_seq(request.episodes@);
            let mut i: usize = 0;
            assert(self.download_tracker@ =~= old(self).download_tracker@.union(
                ids.take(0).to_set(),
            ));
            while i < n
                invariant
                    i <= n,
                    n == request.episodes@.len(),
                    ids == data_id_seq(request.episodes@),
                    self.podcasts == old(self).podcasts,
                    self.filters == old(self).filters,
                    self.sync_counter == old(self).sync_counter,
                    self.sync_tracker == old(self).sync_tracker,
                    self.download_new_episodes == old(self).download_new_episodes,
                    self.download_tracker@ == old(self).download_tracker@.union(
                        ids.take(i as int).to_set(),
                    ),
                decreases n - i,
            {
                let id = request.episodes[i].id;
                self.download_tracker.insert(id);
                proof {
                    lemma_prefix_grows(ids, i as int);
                    assert(self.download_tracker@ =~= old(self).download_tracker@.union(
                        ids.take(i as int + 1).to_set(),
                    ));
                }
                i += 1;
            }
            assert(ids.take(n as int) =~= ids);
        } else {
            let mut text = String::from_str("Could not create dir: ");
            text.append(request.pod_title.as_str());
            let m = self.notif_to_ui(text, true);
            messages.push(m);
        }
        let m = self.update_tracker_notif();
        messages.push(m);
        messages
    }

    /// Takes a finished download into the model. `stored` says whether
    /// storage has recorded the file. Either way the download is over and
    /// the episode is no longer counted as in flight.
    ///
    /// Where storage has not recorded the file, the podcasts stay as they
    /// were, so the episode can be asked for again; the failure is reported,
    /// then what is still in flight. Where it has, the episode gets the
    /// file's path and the filtered orders are recomputed; the messages
    /// report what is still in flight, then, once nothing is, that the
    /// downloads are complete, and last ask for the menus to be drawn again.
    /// An episode that is no longer stored leaves the podcasts as they are.
    pub fn download_complete(&mut self, ep_data: EpData, stored: bool) -> (messages: Vec<
        MainMessage,
    >)
        requires
            ep_data.file_path is Some,
        ensures
            final(self).filters == old(self).filters,
            final(self).sync_counter == old(self).sync_counter,
            final(self).sync_tracker == old(self).sync_tracker,
            final(self).download_new_episodes == old(self).download_new_episodes,
            final(self).download_tracker@ == old(self).download_tracker@.remove(ep_data.id),
            !stored ==> {
                &&& final(self).podcasts@ == old(self).podcasts@
                &&& messages@.len() == 2
                &&& is_notif(
                    messages@[0],
                    "Could not add episode file to database: "@ + ep_data.file_path->0@,
                    true,
                )
                &&& is_tracker_message(
                    messages@[1],
                    final(self).sync_counter as nat,
                    final(self).download_tracker@.len(),
                )
            },
            stored ==> {
                &&& final(self).podcasts@ == filtered_model(
                    with_path(
                        old(self).podcasts@,
                        ep_data.pod_id,
                        ep_data.id,
                        Some(ep_data.file_path->0@),
                    ),
                    old(self).filters,
                )
                &&& messages@.len() == if final(self).download_tracker@.len() == 0 {
                    3int
                } else {
                    2int
                }
                &&& is_tracker_message(
                    messages@[0],
                    final(self).sync_counter as nat,
                    final(self).download_tracker@.len(),
                )
                &&& final(self).download_tracker@.len() == 0 ==> is_notif(
                    messages@[1],
                    "Downloads complete."@,
                    false,
                )
                &&& messages@.last() is UiUpdateMenus
            },
    {
        let mut messages: Vec<MainMessage> = Vec::new();
        let path = match ep_data.file_path {
            Some(path) => path,
            None => {
                assert(false);
                String::from_str("")
            },
        };
        if !stored {
            let mut text = String::from_str("Could not add episode file to database: ");
            text.append(path.as_str());
            let m = self.notif_to_ui(text, true);
            messages.push(m);
            self.download_tracker.remove(&ep_data.id);
            let m = self.update_tracker_notif();
            messages.push(m);
            return messages;
        }
        match self.clone_episode(ep_data.pod_id, ep_data.id) {
            Some(episode) => {
                let mut episode = episode;
                episode.path = Some(path);
                self.put_episode(ep_data.pod_id, episode);
            },
            None => {},
        }
        self.download_tracker.remove(&ep_data.id);
        let m = self.update_tracker_notif();
        messages.push(m);
        if self.download_tracker.len() == 0 {
            let m = self.notif_to_ui(String::from_str("Downloads complete."), false);
            messages.push(m);
        }
        let filters = self.filters;
        let mut more = self.update_filters(filters, true);
        messages.append(&mut more);
        messages
    }

    /// The local file of episode `ep_id` of podcast `pod_id`, which a
    /// request to delete it has to remove from disk; `None` where the
    /// episode is not stored or has no file.
    pub fn delete_file_target(&self, pod_id: i64, ep_id: i64) -> (path: Option<String>)
        ensures
            path is Some <==> has_file(self.podcasts@, pod_id, ep_id),
            path matches Some(p) ==> Some(p@) == episode_at(self.podcasts@, pod_id, ep_id).path,
    {
        match self.clone_episode(pod_id, ep_id) {
            Some(episode) => episode.path,
            None => None,
        }
    }

    /// Takes the outcome of deleting an episode's file into the model. The
    /// file is removed from disk first; only where that succeeded is its
    /// record removed from storage, and only where both succeeded does the
    /// episode lose its path. A failure is reported and changes nothing. An
    /// episode that is not stored, or has no file, is passed over.
    pub fn delete_file(
        &mut self,
        pod_id: i64,
        ep_id: i64,
        removed_from_disk: bool,
        removed_from_storage: bool,
    ) -> (messages: Vec<MainMessage>)
        ensures
            final(self).same_bookkeeping(old(self)),
            !has_file(old(self).podcasts@, pod_id, ep_id) ==> {
                &&& final(self).podcasts@ == old(self).podcasts@
                &&& messages@.len() == 0
            },
            has_file(old(self).podcasts@, pod_id, ep_id) && !removed_from_disk ==> {
                &&& final(self).podcasts@ == old(self).podcasts@
                &&& messages@.len() == 1
                &&& is_notif(
                    messages@[0],
                    "Error deleting \""@ + episode_at(old(self).podcasts@, pod_id, ep_id).title
                        + "\""@,
                    true,
                )
            },
            has_file(old(self).podcasts@, pod_id, ep_id) && removed_from_disk
                && !removed_from_storage ==> {
                &&& final(self).podcasts@ == old(self).podcasts@
                &&& messages@.len() == 1
                &&& is_notif(
                    messages@[0],
                    "Could not remove file from database: "@ + episode_at(
                        old(self).podcasts@,
                        pod_id,
                        ep_id,
                    ).title,
                    true,
                )
            },
            has_file(old(self).podcasts@, pod_id, ep_id) && removed_from_disk
                && removed_from_storage ==> {
                &&& final(self).podcasts@ == filtered_model(
                    with_path(old(self).podcasts@, pod_id, ep_id, None),
                    old(self).filters,
                )
                &&& messages@.len() == 2
                &&& messages@[0] is UiUpdateMenus
                &&& is_notif(
                    messages@[1],
                    "Deleted \""@ + episode_at(old(self).podcasts@, pod_id, ep_id).title + "\""@,
                    false,
                )
            },
    {
        let mut messages: Vec<MainMessage> = Vec::new();
        match self.clone_episode(pod_id, ep_id) {
            Some(episode) => {
                if episode.path.is_some() {
                    let mut episode = episode;
                    if !removed_from_disk {
                        let mut text = String::from_str("Error deleting \"");
                        text.append(episode.title.as_str());
                        text.append("\"");
                        let m = self.notif_to_ui(text, true);
                        messages.push(m);
                    } else if !removed_from_storage {
                        let mut text = String::from_str("Could not remove file from database: ");
                        text.append(episode.title.as_str());
                        let m = self.notif_to_ui(text, true);
                        messages.push(m);
                    } else {
                        let mut text = String::from_str("Deleted \"");
                        text.append(episode.title.as_str());
                        text.append("\"");
                        episode.path = None;
                        self.put_episode(pod_id, episode);
                        let filters = self.filters;
                        let mut menus = self.update_filters(filters, true);
                        messages.append(&mut menus);
                        let m = self.notif_to_ui(text, false);
                        messages.push(m);
                    }
                }
            },
            None => {},
        }
        messages
    }

    /// The local files of podcast `pod_id`, which a request to delete them
    /// all has to remove from disk: each with the identifier of its episode,
    /// in canonical order. None where the podcast is not stored.
    pub fn files_to_delete(&self, pod_id: i64) -> (files: Vec<(i64, String)>)
        ensures
            self.podcasts@.map.contains_key(pod_id) ==> files_match(
                files@,
                self.podcasts@.map[pod_id].episodes.order.filter(
                    with_file(self.podcasts@.map[pod_id].episodes.map),
                ),
                self.podcasts@.map[pod_id].episodes.map,
            ),
            !self.podcasts@.map.contains_key(pod_id) ==> files@.len() == 0,
    {
        let mut files: Vec<(i64, String)> = Vec::new();
        match self.podcasts.get(pod_id) {
            None => {},
            Some(pod) => {
                pod.episodes.check_wf();
                let ghost eps = pod.episodes@;
                let ghost keep = with_file(eps.map);
                let order = pod.episodes.borrow_order();
                let n = order.len();
                let ghost mut ids: Seq<i64> = Seq::empty();
                assert(order@.take(0) =~= Seq::<i64>::empty());
                assert(Seq::<i64>::empty().filter(keep) =~= Seq::<i64>::empty()) by {
                    reveal(Seq::filter);
                }
                let mut i: usize = 0;
                while i < n
                    invariant
                        i <= n,
                        n == order@.len(),
                        order@ == eps.order,
                        eps == pod.episodes@,
                        pod.episodes.wf(),
                        keep == with_file(eps.map),
                        ids == order@.take(i as int).filter(keep),
                        files_match(files@, ids, eps.map),
                    decreases n - i,
                {
                    let id = order[i];
                    assert(eps.order.contains(id));
                    proof {
                        assert(order@.take(i as int + 1) =~= order@.take(i as int).push(id));
                        order@.take(i as int).lemma_filter_push(id, keep);
                    }
                    match pod.episodes.get(id) {
                        Some(ep) => {
                            match &ep.path {
                                Some(path) => {
                                    files.push((id, path.clone()));
                                    proof {
                                        ids = ids.push(id);
                                    }
                                },
                                None => {},
                            }
                        },
                        None => {
                            assert(false);
                        },
                    }
                    i += 1;
                }
                assert(order@.take(n as int) =~= order@);
            },
        }
        files
    }

    /// Takes the outcome of deleting the files of podcast `pod_id` into the
    /// model. `deleted` names the episodes whose file was removed from disk:
    /// each of them loses its path, whatever became of the others.
    /// `all_deleted` says whether every file could be removed and
    /// `storage_ok` whether storage dropped the records; one message at the
    /// end reports the whole batch. A podcast that is no longer stored is
    /// passed over.
    pub fn delete_files(
        &mut self,
        pod_id: i64,
        deleted: &Vec<i64>,
        all_deleted: bool,
        storage_ok: bool,
    ) -> (messages: Vec<MainMessage>)
        ensures
            final(self).same_bookkeeping(old(self)),
            if old(self).podcasts@.map.contains_key(pod_id) {
                &&& final(self).podcasts@ == filtered_model(
                    with_episodes(
                        old(self).podcasts@,
                        pod_id,
                        cleared(old(self).podcasts@.map[pod_id].episodes, deleted@.to_set()),
                    ),
                    old(self).filters,
                )
                &&& messages@.len() == 2
                &&& messages@[0] is UiUpdateMenus
                &&& is_notif(
                    messages@[1],
                    if all_deleted && storage_ok {
                        "Files successfully deleted."@
                    } else {
                        "Error while deleting files"@
                    },
                    !(all_deleted && storage_ok),
                )
            } else {
                &&& final(self).podcasts@ == old(self).podcasts@
                &&& messages@.len() == 0
            },
    {
        self.podcasts.check_wf();
        let mut messages: Vec<MainMessage> = Vec::new();
        match self.podcasts.clone_entity(pod_id) {
            None => {},
            Some(pod) => {
                let mut pod = pod;
                let ghost eps = pod.episodes@;
                let n = deleted.len();
                let mut i: usize = 0;
                assert(pod.episodes@.map =~= cleared(eps, deleted@.take(0).to_set()).map);
                while i < n
                    invariant
                        i <= n,
                        n == deleted@.len(),
                        eps == old(self).podcasts@.map[pod_id].episodes,
                        pod@ == (PodcastView {
                            episodes: pod.episodes@,
                            ..old(self).podcasts@.map[pod_id]
                        }),
                        pod.episodes@ == cleared(eps, deleted@.take(i as int).to_set()),
                    decreases n - i,
                {
                    let id = deleted[i];
                    let ghost now = deleted@.take(i as int + 1).to_set();
                    proof {
                        lemma_prefix_grows(deleted@, i as int);
                    }
                    pod.episodes.check_wf();
                    match pod.episodes.clone_entity(id) {
                        Some(ep) => {
                            let mut ep = ep;
                            ep.path = None;
                            pod.episodes.replace(id, ep);
                        },
                        None => {},
                    }
                    assert(pod.episodes@.map =~= cleared(eps, now).map);
                    i += 1;
                }
                assert(deleted@.take(n as int) =~= deleted@);
                self.podcasts.replace(pod_id, pod);
                let filters = self.filters;
                let mut menus = self.update_filters(filters, true);
                messages.append(&mut menus);
                if all_deleted && storage_ok {
                    let m = self.notif_to_ui(String::from_str("Files successfully deleted."), false);
                    messages.push(m);
                } else {
                    let m = self.notif_to_ui(String::from_str("Error while deleting files"), true);
                    messages.push(m);
                }
            },
        }
        messages
    }

    /// Takes a failed download into the model: the episode is no longer in
    /// flight, so that it can be asked for again. The failure is reported
    /// first, then what is still in flight.
    pub fn download_error(&mut self, ep_id: i64, failure: DownloadFailure) -> (messages: Vec<
        MainMessage,
    >)
        ensures
            final(self).podcasts == old(self).podcasts,
            final(self).filters == old(self).filters,
            final(self).sync_counter == old(self).sync_counter,
            final(self).sync_tracker == old(self).sync_tracker,
            final(self).download_new_episodes == old(self).download_new_episodes,
            final(self).download_tracker@ == old(self).download_tracker@.remove(ep_id),
            messages@.len() == 2,
            is_notif(messages@[0], download_failure_text(failure), true),
            is_tracker_message(
                messages@[1],
                final(self).sync_counter as nat,
                final(self).download_tracker@.len(),
            ),
    {
        let mut messages: Vec<MainMessage> = Vec::new();
        let text = match failure {
            DownloadFailure::Response => String::from_str("Error sending download request."),
            DownloadFailure::FileCreate => String::from_str("Error creating file."),
            DownloadFailure::FileWrite => String::from_str("Error downloading episode."),
        };
        let m = self.notif_to_ui(text, true);
        messages.push(m);
        self.download_tracker.remove(&ep_id);
        let m = self.update_tracker_notif();
        messages.push(m);
        messages
    }
}

} // verus!
