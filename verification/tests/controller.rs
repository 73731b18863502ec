use podcast_core::db::SyncResult;
use podcast_core::downloads::DownloadFailure;
use podcast_core::episodes::PlayTarget;
use podcast_core::main_controller::MESSAGE_TIME;
use podcast_core::main_controller::MainController;
use podcast_core::main_controller::MainMessage;
use podcast_core::main_controller::SyncOutcome;
use podcast_core::main_controller::collect_batch;
use podcast_core::messages::DownloadMsg;
use podcast_core::messages::FeedMsg;
use podcast_core::messages::Message;
use podcast_core::messages::UiMsg;
use podcast_core::store::OrderedStore;
use podcast_core::types::DownloadNewEpisodes;
use podcast_core::types::EpData;
use podcast_core::types::Episode;
use podcast_core::types::FilterStatus;
use podcast_core::types::FilterType;
use podcast_core::types::Filters;
use podcast_core::types::NewEpisode;
use podcast_core::types::Podcast;
use podcast_core::types::PodcastFeed;

fn episode(id: i64, pod_id: i64, played: bool, path: Option<&str>) -> Episode {
    Episode {
        id,
        pod_id,
        title: format!("Episode {id}"),
        url: format!("http://example.org/{id}.mp3"),
        description: Some("text".to_string()),
        pubdate: Some(1_000 * id),
        duration: Some(60),
        path: path.map(|p| p.to_string()),
        played,
    }
}

fn podcast(id: i64, title: &str, eps: Vec<Episode>) -> Podcast {
    let mut episodes = OrderedStore::new();
    assert!(episodes.insert_ordered(eps));
    Podcast {
        id,
        title: title.to_string(),
        sort_title: title.to_lowercase(),
        url: format!("http://example.org/{id}/feed.xml"),
        description: None,
        author: None,
        explicit: None,
        last_checked: 0,
        episodes,
    }
}

fn library() -> Vec<Podcast> {
    vec![
        podcast(
            1,
            "Alpha",
            vec![
                episode(13, 1, false, None),
                episode(12, 1, true, Some("/music/alpha/12.mp3")),
                episode(11, 1, false, None),
            ],
        ),
        podcast(2, "Beta", vec![episode(21, 2, true, None)]),
    ]
}

fn controller(policy: DownloadNewEpisodes) -> MainController {
    MainController::new(policy, library()).unwrap()
}

fn notif(text: &str, error: bool) -> MainMessage {
    MainMessage::UiSpawnNotif(text.to_string(), error, MESSAGE_TIME)
}

fn persistent(text: &str) -> MainMessage {
    MainMessage::UiSpawnPersistentNotif(text.to_string(), false)
}

fn done(messages: Vec<MainMessage>) -> SyncOutcome {
    SyncOutcome { messages, downloads: vec![] }
}

fn filtered(c: &MainController, pod_id: i64) -> Vec<i64> {
    c.podcasts.get(pod_id).unwrap().episodes.borrow_filtered_order().clone()
}

fn new_episode(id: i64, pod_id: i64) -> NewEpisode {
    NewEpisode {
        id,
        pod_id,
        title: format!("Episode {id}"),
        pod_title: "Alpha".to_string(),
        selected: false,
    }
}

fn finished(id: i64, pod_id: i64, path: &str) -> EpData {
    EpData {
        id,
        pod_id,
        title: format!("Episode {id}"),
        url: format!("http://example.org/{id}.mp3"),
        pubdate: Some(1_000 * id),
        file_path: Some(path.to_string()),
    }
}

#[test]
fn new_controller_starts_idle() {
    let c = controller(DownloadNewEpisodes::Never);
    assert_eq!(c.podcasts.borrow_order(), &vec![1, 2]);
    assert_eq!(c.podcasts.borrow_filtered_order(), &vec![1, 2]);
    assert_eq!(c.filters, Filters { played: FilterStatus::All, downloaded: FilterStatus::All });
    assert_eq!(c.sync_counter, 0);
    assert!(c.sync_tracker.is_empty());
    assert!(c.download_tracker.is_empty());
    assert_eq!(c.download_new_episodes, DownloadNewEpisodes::Never);
}

#[test]
fn new_controller_refuses_duplicate_podcasts() {
    let twice = vec![podcast(1, "Alpha", vec![]), podcast(1, "Again", vec![])];
    assert!(MainController::new(DownloadNewEpisodes::Never, twice).is_none());
}

#[test]
fn notifications_carry_their_text() {
    let c = controller(DownloadNewEpisodes::Never);
    assert_eq!(c.notif_to_ui("hello".to_string(), true), MainMessage::UiSpawnNotif("hello".to_string(), true, 5000));
    assert_eq!(
        c.persistent_notif_to_ui("busy".to_string(), false),
        MainMessage::UiSpawnPersistentNotif("busy".to_string(), false)
    );
    assert_eq!(c.clear_persistent_notif(), MainMessage::UiClearPersistentNotif);
}

#[test]
fn tracker_notification_counts_what_is_in_flight() {
    let mut c = controller(DownloadNewEpisodes::Never);
    assert_eq!(c.update_tracker_notif(), MainMessage::UiClearPersistentNotif);
    c.sync_counter = 1;
    assert_eq!(c.update_tracker_notif(), persistent("Syncing 1 podcast..."));
    c.sync_counter = 12;
    assert_eq!(c.update_tracker_notif(), persistent("Syncing 12 podcasts..."));
    c.download_tracker.insert(5);
    assert_eq!(c.update_tracker_notif(), persistent("Syncing 12 podcasts, downloading 1 episode..."));
    c.download_tracker.insert(6);
    c.sync_counter = 1;
    assert_eq!(c.update_tracker_notif(), persistent("Syncing 1 podcast, downloading 2 episodes..."));
    c.sync_counter = 0;
    assert_eq!(c.update_tracker_notif(), persistent("Downloading 2 episodes..."));
    c.download_tracker.remove(&6);
    assert_eq!(c.update_tracker_notif(), persistent("Downloading 1 episode..."));
}

#[test]
fn add_podcast_makes_a_feed_check_without_touching_the_model() {
    let c = controller(DownloadNewEpisodes::Never);
    let feed = c.add_podcast("http://new.example/feed".to_string());
    assert_eq!(feed, PodcastFeed { id: None, url: "http://new.example/feed".to_string(), title: None });
    assert_eq!(c.sync_counter, 0);
}

#[test]
fn sync_one_counts_one_feed_check() {
    let mut c = controller(DownloadNewEpisodes::Never);
    let (feeds, message) = c.sync(Some(2));
    assert_eq!(
        feeds,
        vec![PodcastFeed {
            id: Some(2),
            url: "http://example.org/2/feed.xml".to_string(),
            title: Some("Beta".to_string())
        }]
    );
    assert_eq!(c.sync_counter, 1);
    assert_eq!(message, persistent("Syncing 1 podcast..."));
}

#[test]
fn sync_all_counts_every_podcast_in_order() {
    let mut c = controller(DownloadNewEpisodes::Never);
    let (feeds, message) = c.sync(None);
    assert_eq!(feeds.iter().map(|f| f.id).collect::<Vec<_>>(), vec![Some(1), Some(2)]);
    assert_eq!(feeds[0].title, Some("Alpha".to_string()));
    assert_eq!(c.sync_counter, 2);
    assert_eq!(message, persistent("Syncing 2 podcasts..."));
}

#[test]
fn sync_of_a_removed_podcast_dispatches_nothing() {
    let mut c = controller(DownloadNewEpisodes::Never);
    let (feeds, message) = c.sync(Some(99));
    assert!(feeds.is_empty());
    assert_eq!(c.sync_counter, 0);
    assert_eq!(message, MainMessage::UiClearPersistentNotif);
}

#[test]
fn unplayed_only_shows_exactly_the_unplayed_episodes_in_order() {
    let mut c = controller(DownloadNewEpisodes::Never);
    let messages = c.filter_change(FilterType::Played);
    assert_eq!(c.filters.played, FilterStatus::NegativeCases);
    assert_eq!(messages, vec![notif("Filter: Unplayed only", false), MainMessage::UiUpdateMenus]);
    assert_eq!(filtered(&c, 1), vec![13, 11]);
    assert_eq!(filtered(&c, 2), Vec::<i64>::new());
    // A podcast without a visible episode leaves the filtered list.
    assert_eq!(c.podcasts.borrow_filtered_order(), &vec![1]);
    assert_eq!(c.podcasts.borrow_order(), &vec![1, 2]);
}

#[test]
fn played_filter_cycles_all_unplayed_played_all() {
    let mut c = controller(DownloadNewEpisodes::Never);
    assert_eq!(c.filter_change(FilterType::Played)[0], notif("Filter: Unplayed only", false));
    assert_eq!(c.filter_change(FilterType::Played)[0], notif("Filter: Played only", false));
    assert_eq!(c.filters.played, FilterStatus::PositiveCases);
    assert_eq!(filtered(&c, 1), vec![12]);
    assert_eq!(filtered(&c, 2), vec![21]);
    assert_eq!(c.filter_change(FilterType::Played)[0], notif("Filter: Played and unplayed", false));
    assert_eq!(c.filters.played, FilterStatus::All);
    assert_eq!(filtered(&c, 1), vec![13, 12, 11]);
    assert_eq!(c.podcasts.borrow_filtered_order(), &vec![1, 2]);
}

#[test]
fn downloaded_filter_cycles_all_downloaded_undownloaded_all() {
    let mut c = controller(DownloadNewEpisodes::Never);
    assert_eq!(c.filter_change(FilterType::Downloaded)[0], notif("Filter: Downloaded only", false));
    assert_eq!(c.filters.downloaded, FilterStatus::PositiveCases);
    assert_eq!(filtered(&c, 1), vec![12]);
    assert_eq!(c.podcasts.borrow_filtered_order(), &vec![1]);
    assert_eq!(c.filter_change(FilterType::Downloaded)[0], notif("Filter: Undownloaded only", false));
    assert_eq!(c.filters.downloaded, FilterStatus::NegativeCases);
    assert_eq!(filtered(&c, 1), vec![13, 11]);
    assert_eq!(filtered(&c, 2), vec![21]);
    assert_eq!(
        c.filter_change(FilterType::Downloaded)[0],
        notif("Filter: Downloaded and undownloaded", false)
    );
    assert_eq!(c.filters.downloaded, FilterStatus::All);
}

#[test]
fn both_filters_apply_together() {
    let mut c = controller(DownloadNewEpisodes::Never);
    c.filter_change(FilterType::Played);
    c.filter_change(FilterType::Played);
    c.filter_change(FilterType::Downloaded);
    c.filter_change(FilterType::Downloaded);
    // played only, undownloaded only
    assert_eq!(filtered(&c, 1), Vec::<i64>::new());
    assert_eq!(filtered(&c, 2), vec![21]);
    assert_eq!(c.podcasts.borrow_filtered_order(), &vec![2]);
}

#[test]
fn update_filters_can_keep_the_menus_as_they_are() {
    let mut c = controller(DownloadNewEpisodes::Never);
    let only_played = Filters { played: FilterStatus::PositiveCases, downloaded: FilterStatus::All };
    assert!(c.update_filters(only_played, false).is_empty());
    assert_eq!(filtered(&c, 1), vec![12]);
    assert_eq!(c.filters.played, FilterStatus::All);
    assert_eq!(c.update_filters(only_played, true), vec![MainMessage::UiUpdateMenus]);
}

#[test]
fn mark_played_flips_the_flag_and_refilters() {
    let mut c = controller(DownloadNewEpisodes::Never);
    c.filter_change(FilterType::Played);
    assert_eq!(filtered(&c, 1), vec![13, 11]);
    assert_eq!(c.mark_played(1, 13, true, true), vec![MainMessage::UiUpdateMenus]);
    assert!(c.clone_episode(1, 13).unwrap().played);
    assert_eq!(filtered(&c, 1), vec![11]);
    assert_eq!(c.mark_played(1, 12, false, true), vec![MainMessage::UiUpdateMenus]);
    assert_eq!(filtered(&c, 1), vec![12, 11]);
}

#[test]
fn mark_played_that_storage_refused_changes_nothing_and_is_reported() {
    let mut c = controller(DownloadNewEpisodes::Never);
    c.filter_change(FilterType::Played);
    let messages = c.mark_played(1, 13, true, false);
    assert_eq!(messages, vec![notif("Could not update played status in database", true)]);
    assert!(!c.clone_episode(1, 13).unwrap().played);
    assert_eq!(filtered(&c, 1), vec![13, 11]);
    let messages = c.mark_played(1, 12, false, false);
    assert_eq!(messages, vec![notif("Could not update played status in database", true)]);
    assert!(c.clone_episode(1, 12).unwrap().played);
}

#[test]
fn mark_played_passes_over_a_lookup_miss() {
    let mut c = controller(DownloadNewEpisodes::Never);
    assert!(c.mark_played(1, 99, true, true).is_empty());
    assert!(c.mark_played(7, 13, true, true).is_empty());
    assert!(c.mark_played(1, 99, true, false).is_empty());
    assert!(!c.clone_episode(1, 13).unwrap().played);
}

#[test]
fn play_prefers_the_local_file() {
    let mut c = controller(DownloadNewEpisodes::Never);
    let (messages, target) = c.play_file(1, 12, true);
    assert_eq!(messages, vec![MainMessage::UiUpdateMenus]);
    assert_eq!(target, Some(PlayTarget::File("/music/alpha/12.mp3".to_string())));
    let (_, target) = c.play_file(1, 13, true);
    assert_eq!(target, Some(PlayTarget::Url("http://example.org/13.mp3".to_string())));
    assert!(c.clone_episode(1, 13).unwrap().played);
    let (messages, target) = c.play_file(1, 99, true);
    assert!(messages.is_empty());
    assert_eq!(target, None);
}

#[test]
fn play_goes_on_where_storage_refused_the_flag() {
    let mut c = controller(DownloadNewEpisodes::Never);
    let (messages, target) = c.play_file(1, 11, false);
    assert_eq!(messages, vec![notif("Could not update played status in database", true)]);
    assert_eq!(target, Some(PlayTarget::Url("http://example.org/11.mp3".to_string())));
    assert!(!c.clone_episode(1, 11).unwrap().played);
}

#[test]
fn play_failure_is_a_notification() {
    let c = controller(DownloadNewEpisodes::Never);
    assert_eq!(
        c.play_failed(&PlayTarget::File("/x".to_string())),
        notif("Error: Could not play file. Check configuration.", true)
    );
    assert_eq!(c.play_failed(&PlayTarget::Url("http://x".to_string())), notif("Error: Could not stream URL.", true));
}

#[test]
fn mark_all_played_flips_every_flag_and_refilters() {
    let mut c = controller(DownloadNewEpisodes::Never);
    c.filter_change(FilterType::Played);
    assert_eq!(filtered(&c, 1), vec![13, 11]);
    let to_persist = c.episode_ids(1);
    assert_eq!(to_persist, vec![13, 12, 11]);
    let messages = c.mark_all_played(1, true, &to_persist, true);
    assert_eq!(messages, vec![MainMessage::UiUpdateMenus]);
    for id in [13, 12, 11] {
        assert!(c.clone_episode(1, id).unwrap().played);
    }
    // The other fields stay as they were.
    assert_eq!(c.clone_episode(1, 12).unwrap().path, Some("/music/alpha/12.mp3".to_string()));
    assert_eq!(c.episode_ids(1), vec![13, 12, 11]);
    assert_eq!(filtered(&c, 1), Vec::<i64>::new());
    assert_eq!(c.podcasts.borrow_filtered_order(), &Vec::<i64>::new());

    let messages = c.mark_all_played(2, false, &vec![21], true);
    assert_eq!(messages, vec![MainMessage::UiUpdateMenus]);
    assert!(!c.clone_episode(2, 21).unwrap().played);
    assert_eq!(c.podcasts.borrow_filtered_order(), &vec![2]);

    assert!(c.mark_all_played(9, true, &vec![], true).is_empty());
    assert!(c.episode_ids(9).is_empty());
}

#[test]
fn mark_all_played_marks_only_what_storage_took() {
    let mut c = controller(DownloadNewEpisodes::Never);
    // Storage took the flag of 13 and 12 and refused that of 11.
    let messages = c.mark_all_played(1, true, &vec![13, 12], false);
    assert_eq!(
        messages,
        vec![MainMessage::UiUpdateMenus, notif("Could not update played status in database", true)]
    );
    assert!(c.clone_episode(1, 13).unwrap().played);
    assert!(c.clone_episode(1, 12).unwrap().played);
    assert!(!c.clone_episode(1, 11).unwrap().played);
    // An identifier that the podcast does not hold is passed over.
    let messages = c.mark_all_played(1, false, &vec![99], true);
    assert_eq!(messages, vec![MainMessage::UiUpdateMenus]);
    assert!(c.clone_episode(1, 13).unwrap().played);
}

#[test]
fn download_all_skips_downloaded_and_in_flight_episodes() {
    let mut c = controller(DownloadNewEpisodes::Never);
    let request = c.download(1, None).unwrap();
    assert_eq!(request.episodes.iter().map(|e| e.id).collect::<Vec<_>>(), vec![13, 11]);
    assert_eq!(request.pod_title, "Alpha");
    assert_eq!(request.dir_name, "Alpha");
    assert_eq!(request.episodes[0].url, "http://example.org/13.mp3");
    assert_eq!(request.episodes[0].pod_id, 1);
    assert_eq!(request.episodes[0].file_path, None);
    // Nothing is in flight until the directory exists.
    assert!(c.download_tracker.is_empty());

    let messages = c.queue_downloads(&request, true);
    assert_eq!(messages, vec![persistent("Downloading 2 episodes...")]);
    assert_eq!(c.download_tracker.len(), 2);
    assert!(c.download_tracker.contains(&13) && c.download_tracker.contains(&11));

    // A second request dispatches nothing for what is in flight.
    assert!(c.download(1, None).is_none());
    assert!(c.download(1, Some(13)).is_none());
    assert!(c.download_candidates(1, None).is_empty());

    let first = c.download_complete(finished(13, 1, "/music/alpha/13.mp3"), true);
    assert_eq!(first, vec![persistent("Downloading 1 episode..."), MainMessage::UiUpdateMenus]);
    assert_eq!(c.download_tracker.len(), 1);
    let second = c.download_complete(finished(11, 1, "/music/alpha/11.mp3"), true);
    assert_eq!(
        second,
        vec![MainMessage::UiClearPersistentNotif, notif("Downloads complete.", false), MainMessage::UiUpdateMenus]
    );
    assert!(c.download_tracker.is_empty());
    let all = [first, second].concat();
    assert_eq!(all.iter().filter(|m| **m == notif("Downloads complete.", false)).count(), 1);
    assert_eq!(c.clone_episode(1, 13).unwrap().path, Some("/music/alpha/13.mp3".to_string()));
    assert_eq!(c.clone_episode(1, 11).unwrap().path, Some("/music/alpha/11.mp3".to_string()));
    assert!(c.download(1, None).is_none());
}

#[test]
fn download_of_one_episode() {
    let c = controller(DownloadNewEpisodes::Never);
    let request = c.download(1, Some(11)).unwrap();
    assert_eq!(request.episodes.len(), 1);
    assert_eq!(request.episodes[0].id, 11);
    assert_eq!(request.episodes[0].title, "Episode 11");
    assert_eq!(request.episodes[0].pubdate, Some(11_000));
    // Already downloaded, unknown episode, unknown podcast.
    assert!(c.download(1, Some(12)).is_none());
    assert!(c.download(1, Some(99)).is_none());
    assert!(c.download(9, Some(11)).is_none());
    assert!(c.download(9, None).is_none());
}

#[test]
fn download_directory_name_is_fit_for_a_file_name() {
    let pods = vec![podcast(1, "News: What/Why? <Daily>", vec![episode(11, 1, false, None)])];
    let c = MainController::new(DownloadNewEpisodes::Never, pods).unwrap();
    let request = c.download(1, None).unwrap();
    assert_eq!(request.pod_title, "News: What/Why? <Daily>");
    assert_eq!(request.dir_name, "News WhatWhy Daily");
}

#[test]
fn a_directory_that_cannot_be_created_queues_nothing() {
    let mut c = controller(DownloadNewEpisodes::Never);
    let request = c.download(1, None).unwrap();
    let messages = c.queue_downloads(&request, false);
    assert_eq!(messages, vec![notif("Could not create dir: Alpha", true), MainMessage::UiClearPersistentNotif]);
    assert!(c.download_tracker.is_empty());
    assert!(c.download(1, None).is_some());
}

#[test]
fn a_download_that_storage_refuses_is_over_and_can_be_asked_for_again() {
    let mut c = controller(DownloadNewEpisodes::Never);
    let request = c.download(1, Some(13)).unwrap();
    c.queue_downloads(&request, true);
    assert!(c.download(1, Some(13)).is_none());
    let messages = c.download_complete(finished(13, 1, "/music/alpha/13.mp3"), false);
    assert_eq!(
        messages,
        vec![
            notif("Could not add episode file to database: /music/alpha/13.mp3", true),
            MainMessage::UiClearPersistentNotif
        ]
    );
    assert!(!c.download_tracker.contains(&13));
    assert_eq!(c.clone_episode(1, 13).unwrap().path, None);
    assert!(c.download(1, Some(13)).is_some());
}

#[test]
fn a_download_for_a_removed_episode_is_benign() {
    let mut c = controller(DownloadNewEpisodes::Never);
    c.download_tracker.insert(77);
    let messages = c.download_complete(finished(77, 1, "/music/alpha/77.mp3"), true);
    assert_eq!(
        messages,
        vec![MainMessage::UiClearPersistentNotif, notif("Downloads complete.", false), MainMessage::UiUpdateMenus]
    );
    assert!(c.download_tracker.is_empty());
    assert_eq!(c.episode_ids(1), vec![13, 12, 11]);
}

#[test]
fn a_failed_download_leaves_the_tracking_set() {
    for (failure, text) in [
        (DownloadFailure::Response, "Error sending download request."),
        (DownloadFailure::FileCreate, "Error creating file."),
        (DownloadFailure::FileWrite, "Error downloading episode."),
    ] {
        let mut c = controller(DownloadNewEpisodes::Never);
        let request = c.download(1, None).unwrap();
        c.queue_downloads(&request, true);
        assert!(c.download(1, Some(13)).is_none());
        let messages = c.download_error(13, failure);
        assert_eq!(messages, vec![notif(text, true), persistent("Downloading 1 episode...")]);
        assert!(!c.download_tracker.contains(&13));
        assert!(c.download_tracker.contains(&11));
        assert_eq!(c.clone_episode(1, 13).unwrap().path, None);
        // It is no longer in flight, so it can be asked for again.
        let again = c.download(1, Some(13)).unwrap();
        assert_eq!(again.episodes[0].id, 13);
        let messages = c.download_error(11, failure);
        assert_eq!(messages, vec![notif(text, true), MainMessage::UiClearPersistentNotif]);
        assert!(c.download_tracker.is_empty());
    }
}

#[test]
fn a_failure_for_an_episode_that_is_not_in_flight_changes_no_set() {
    let mut c = controller(DownloadNewEpisodes::Never);
    c.download_tracker.insert(11);
    let messages = c.download_error(77, DownloadFailure::FileWrite);
    assert_eq!(messages, vec![notif("Error downloading episode.", true), persistent("Downloading 1 episode...")]);
    assert_eq!(c.download_tracker.len(), 1);
}

#[test]
fn delete_file_clears_the_path_only_when_both_removals_succeed() {
    let mut c = controller(DownloadNewEpisodes::Never);
    assert_eq!(c.delete_file_target(1, 12), Some("/music/alpha/12.mp3".to_string()));
    assert_eq!(c.delete_file_target(1, 13), None);
    assert_eq!(c.delete_file_target(1, 99), None);

    assert_eq!(c.delete_file(1, 12, false, false), vec![notif("Error deleting \"Episode 12\"", true)]);
    assert!(c.clone_episode(1, 12).unwrap().path.is_some());
    assert_eq!(
        c.delete_file(1, 12, true, false),
        vec![notif("Could not remove file from database: Episode 12", true)]
    );
    assert!(c.clone_episode(1, 12).unwrap().path.is_some());
    assert_eq!(
        c.delete_file(1, 12, true, true),
        vec![MainMessage::UiUpdateMenus, notif("Deleted \"Episode 12\"", false)]
    );
    assert_eq!(c.clone_episode(1, 12).unwrap().path, None);
    // Nothing to delete any more.
    assert!(c.delete_file(1, 12, true, true).is_empty());
    assert!(c.delete_file(1, 99, true, true).is_empty());
}

#[test]
fn delete_files_reports_the_batch_once() {
    let pods = vec![podcast(
        1,
        "Alpha",
        vec![
            episode(13, 1, false, Some("/a/13.mp3")),
            episode(12, 1, false, None),
            episode(11, 1, false, Some("/a/11.mp3")),
        ],
    )];
    let mut c = MainController::new(DownloadNewEpisodes::Never, pods).unwrap();
    assert_eq!(
        c.files_to_delete(1),
        vec![(13, "/a/13.mp3".to_string()), (11, "/a/11.mp3".to_string())]
    );
    assert!(c.files_to_delete(9).is_empty());
    // One file could not be removed: the other still loses its path.
    let messages = c.delete_files(1, &vec![13], false, true);
    assert_eq!(messages, vec![MainMessage::UiUpdateMenus, notif("Error while deleting files", true)]);
    assert_eq!(c.clone_episode(1, 13).unwrap().path, None);
    assert_eq!(c.clone_episode(1, 11).unwrap().path, Some("/a/11.mp3".to_string()));
    let messages = c.delete_files(1, &vec![11], true, true);
    assert_eq!(messages, vec![MainMessage::UiUpdateMenus, notif("Files successfully deleted.", false)]);
    assert!(c.files_to_delete(1).is_empty());
    let messages = c.delete_files(1, &vec![], true, false);
    assert_eq!(messages[1], notif("Error while deleting files", true));
    assert!(c.delete_files(9, &vec![], true, true).is_empty());
}

#[test]
fn removing_an_episode_whose_file_is_missing_still_hides_it() {
    let mut c = controller(DownloadNewEpisodes::Never);
    // The file of episode 12 is gone from disk: deleting it fails.
    assert!(c.delete_file_target(1, 12).is_some());
    let messages = c.delete_file(1, 12, false, false);
    assert_eq!(messages, vec![notif("Error deleting \"Episode 12\"", true)]);
    // Hiding is independent of that: storage now lists the podcast without it.
    let left = vec![episode(13, 1, false, None), episode(11, 1, false, None)];
    let messages = c.remove_episode(1, left);
    assert_eq!(messages, vec![MainMessage::UiUpdateMenus]);
    assert_eq!(c.episode_ids(1), vec![13, 11]);
    assert!(c.clone_episode(1, 12).is_none());
    assert_eq!(filtered(&c, 1), vec![13, 11]);
}

#[test]
fn remove_all_episodes_empties_the_podcast() {
    let mut c = controller(DownloadNewEpisodes::Never);
    let (to_hide, messages) = c.remove_all_episodes(1);
    assert_eq!(to_hide, vec![13, 12, 11]);
    assert_eq!(messages, vec![MainMessage::UiUpdateMenus]);
    assert!(c.episode_ids(1).is_empty());
    assert!(c.podcasts.contains(1));
    assert_eq!(c.episode_ids(2), vec![21]);
    let (to_hide, messages) = c.remove_all_episodes(9);
    assert!(to_hide.is_empty() && messages.is_empty());
}

#[test]
fn remove_podcast_takes_over_what_storage_holds() {
    let mut c = controller(DownloadNewEpisodes::Never);
    let messages = c.remove_podcast(None);
    assert_eq!(messages, vec![notif("Could not remove podcast from database", true)]);
    assert_eq!(c.podcasts.borrow_order(), &vec![1, 2]);
    let left = vec![podcast(2, "Beta", vec![episode(21, 2, true, None)])];
    assert_eq!(c.remove_podcast(Some(left)), vec![MainMessage::UiUpdateMenus]);
    assert_eq!(c.podcasts.borrow_order(), &vec![2]);
    assert!(!c.podcasts.contains(1));
}

#[test]
fn a_new_podcast_reports_its_episode_count() {
    let mut c = controller(DownloadNewEpisodes::Always);
    let mut pods = library();
    pods.push(podcast(3, "Gamma", vec![episode(31, 3, false, None), episode(32, 3, false, None)]));
    let result = SyncResult { added: vec![new_episode(31, 3), new_episode(32, 3)], updated: vec![] };
    let out = c.add_or_sync_data("Gamma", None, Some((result, pods)));
    assert_eq!(out.messages, vec![MainMessage::UiUpdateMenus, notif("Successfully added 2 episodes.", false)]);
    assert!(out.downloads.is_empty());
    assert_eq!(c.podcasts.borrow_order(), &vec![1, 2, 3]);
    assert_eq!(c.sync_counter, 0);
}

#[test]
fn a_storage_failure_on_a_sync_is_reported_and_counted_as_answered() {
    let mut c = controller(DownloadNewEpisodes::Always);
    c.sync(None);
    assert_eq!(c.sync_counter, 2);
    let out = c.add_or_sync_data("Alpha", Some(1), None);
    assert_eq!(out.messages, vec![notif("Error synchronizing Alpha.", true), persistent("Syncing 1 podcast...")]);
    assert!(out.downloads.is_empty());
    assert_eq!(c.sync_counter, 1);
    assert_eq!(c.podcasts.borrow_order(), &vec![1, 2]);
    assert!(c.sync_tracker.is_empty());
}

#[test]
fn a_storage_failure_on_the_last_sync_closes_the_batch() {
    let mut c = controller(DownloadNewEpisodes::Always);
    c.sync(None);
    let first = SyncResult { added: vec![new_episode(14, 1), new_episode(15, 1)], updated: vec![13] };
    c.add_or_sync_data("Alpha", Some(1), Some((first, library())));
    assert_eq!(c.sync_counter, 1);
    let out = c.add_or_sync_data("Beta", Some(2), None);
    assert_eq!(
        out.messages,
        vec![
            notif("Error synchronizing Beta.", true),
            MainMessage::UiClearPersistentNotif,
            notif("Sync complete: Added 2, updated 1 episodes.", false)
        ]
    );
    assert_eq!(out.downloads, vec![(1, 14), (1, 15)]);
    assert_eq!(c.sync_counter, 0);
    assert!(c.sync_tracker.is_empty());
}

#[test]
fn a_storage_failure_on_a_new_podcast_is_reported_and_changes_nothing() {
    let mut c = controller(DownloadNewEpisodes::Always);
    c.sync(Some(1));
    let out = c.add_or_sync_data("Gamma", None, None);
    assert_eq!(out.messages, vec![notif("Error adding podcast to database.", true)]);
    assert!(out.downloads.is_empty());
    assert_eq!(c.sync_counter, 1);
}

#[test]
fn a_batch_reports_once_when_the_last_sync_completes() {
    let mut c = controller(DownloadNewEpisodes::Never);
    c.sync(None);
    assert_eq!(c.sync_counter, 2);
    let first = SyncResult { added: vec![new_episode(14, 1)], updated: vec![13, 12] };
    let out = c.add_or_sync_data("Alpha", Some(1), Some((first, library())));
    assert_eq!(out.messages, vec![MainMessage::UiUpdateMenus, persistent("Syncing 1 podcast...")]);
    assert_eq!(c.sync_counter, 1);
    assert_eq!(c.sync_tracker.len(), 1);
    let second = SyncResult { added: vec![new_episode(22, 2), new_episode(23, 2)], updated: vec![21] };
    let out = c.add_or_sync_data("Beta", Some(2), Some((second, library())));
    assert_eq!(
        out.messages,
        vec![
            MainMessage::UiUpdateMenus,
            MainMessage::UiClearPersistentNotif,
            notif("Sync complete: Added 3, updated 3 episodes.", false)
        ]
    );
    assert!(out.downloads.is_empty());
    assert_eq!(c.sync_counter, 0);
    assert!(c.sync_tracker.is_empty());
}

#[test]
fn policy_always_requests_a_download_for_every_new_episode() {
    let mut c = controller(DownloadNewEpisodes::Always);
    c.sync(Some(1));
    let result = SyncResult { added: vec![new_episode(14, 1), new_episode(15, 1)], updated: vec![] };
    let out = c.add_or_sync_data("Alpha", Some(1), Some((result, library())));
    assert_eq!(out.downloads, vec![(1, 14), (1, 15)]);
    assert_eq!(out.messages[2], notif("Sync complete: Added 2, updated 0 episodes.", false));
    assert_eq!(out.messages.len(), 3);
}

#[test]
fn policy_ask_hands_the_new_episodes_to_the_user() {
    for (policy, selected) in [(DownloadNewEpisodes::AskSelected, true), (DownloadNewEpisodes::AskUnselected, false)] {
        let mut c = controller(policy);
        c.sync(Some(1));
        let added = vec![new_episode(14, 1)];
        let result = SyncResult { added: added.clone(), updated: vec![11] };
        let out = c.add_or_sync_data("Alpha", Some(1), Some((result, library())));
        assert!(out.downloads.is_empty());
        assert_eq!(out.messages.len(), 4);
        assert_eq!(out.messages[2], notif("Sync complete: Added 1, updated 1 episodes.", false));
        assert_eq!(out.messages[3], MainMessage::UiSpawnDownloadPopup(added, selected));
    }
}

#[test]
fn a_batch_without_new_episodes_asks_nothing() {
    let mut c = controller(DownloadNewEpisodes::AskSelected);
    c.sync(Some(1));
    let out = c.add_or_sync_data("Alpha", Some(1), Some((SyncResult { added: vec![], updated: vec![] }, library())));
    assert_eq!(out.messages.len(), 3);
    assert_eq!(out.messages[2], notif("Sync complete: Added 0, updated 0 episodes.", false));
}

#[test]
fn collect_batch_joins_the_results_in_order() {
    let results = vec![
        SyncResult { added: vec![new_episode(1, 1)], updated: vec![7, 8] },
        SyncResult { added: vec![], updated: vec![] },
        SyncResult { added: vec![new_episode(2, 2), new_episode(3, 2)], updated: vec![9] },
    ];
    let (added, updated) = collect_batch(&results);
    assert_eq!(added.iter().map(|e| e.id).collect::<Vec<_>>(), vec![1, 2, 3]);
    assert_eq!(updated, vec![7, 8, 9]);
}

#[test]
fn a_failed_feed_check_of_a_sync_is_counted_down() {
    let mut c = controller(DownloadNewEpisodes::Never);
    c.sync(None);
    let out = c.feed_error(Some("Alpha".to_string()));
    assert_eq!(
        out.messages,
        vec![notif("Error retrieving RSS feed for Alpha.", true), persistent("Syncing 1 podcast...")]
    );
    assert!(out.downloads.is_empty());
    assert_eq!(c.sync_counter, 1);
    let out = c.feed_error(None);
    assert_eq!(out.messages, vec![notif("Error retrieving RSS feed.", true)]);
    assert_eq!(c.sync_counter, 1);
}

#[test]
fn a_failed_feed_check_closes_the_batch_when_it_is_the_last() {
    let mut c = controller(DownloadNewEpisodes::Always);
    c.sync(None);
    let first = SyncResult { added: vec![new_episode(14, 1), new_episode(15, 1)], updated: vec![13] };
    c.add_or_sync_data("Alpha", Some(1), Some((first, library())));
    assert_eq!(c.sync_counter, 1);
    assert_eq!(c.sync_tracker.len(), 1);
    let out = c.feed_error(Some("Beta".to_string()));
    assert_eq!(
        out.messages,
        vec![
            notif("Error retrieving RSS feed for Beta.", true),
            MainMessage::UiClearPersistentNotif,
            notif("Sync complete: Added 2, updated 1 episodes.", false)
        ]
    );
    assert_eq!(out.downloads, vec![(1, 14), (1, 15)]);
    assert_eq!(c.sync_counter, 0);
    assert!(c.sync_tracker.is_empty());
}

#[test]
fn a_batch_of_failures_alone_reports_nothing_added() {
    let mut c = controller(DownloadNewEpisodes::AskSelected);
    c.sync(Some(1));
    let out = c.feed_error(Some("Alpha".to_string()));
    assert_eq!(
        out.messages,
        vec![
            notif("Error retrieving RSS feed for Alpha.", true),
            MainMessage::UiClearPersistentNotif,
            notif("Sync complete: Added 0, updated 0 episodes.", false)
        ]
    );
    assert_eq!(c.sync_counter, 0);
}

#[test]
fn messages_without_outside_work_are_handled_at_once() {
    let mut c = controller(DownloadNewEpisodes::Never);
    assert_eq!(c.handle_message(Message::Ui(UiMsg::Noop)), Ok(done(vec![])));
    assert_eq!(
        c.handle_message(Message::Ui(UiMsg::FilterChange(FilterType::Downloaded))),
        Ok(done(vec![notif("Filter: Downloaded only", false), MainMessage::UiUpdateMenus]))
    );
    assert_eq!(filtered(&c, 1), vec![12]);
    c.sync(Some(1));
    let feed = PodcastFeed { id: Some(1), url: "http://x".to_string(), title: Some("Alpha".to_string()) };
    assert_eq!(
        c.handle_message(Message::Feed(FeedMsg::Error(feed))),
        Ok(done(vec![
            notif("Error retrieving RSS feed for Alpha.", true),
            MainMessage::UiClearPersistentNotif,
            notif("Sync complete: Added 0, updated 0 episodes.", false)
        ]))
    );
    assert_eq!(c.sync_counter, 0);
}

#[test]
fn a_failed_download_message_takes_the_episode_out_of_flight() {
    let kinds: [(fn(EpData) -> DownloadMsg, &str); 3] = [
        (DownloadMsg::ResponseError, "Error sending download request."),
        (DownloadMsg::FileCreateError, "Error creating file."),
        (DownloadMsg::FileWriteError, "Error downloading episode."),
    ];
    for (kind, text) in kinds {
        let mut c = controller(DownloadNewEpisodes::Never);
        let request = c.download(1, Some(13)).unwrap();
        c.queue_downloads(&request, true);
        assert!(c.download_tracker.contains(&13));
        let lost = request.episodes[0].clone();
        assert_eq!(
            c.handle_message(Message::Dl(kind(lost))),
            Ok(done(vec![notif(text, true), MainMessage::UiClearPersistentNotif]))
        );
        assert!(!c.download_tracker.contains(&13));
        assert_eq!(c.episode_ids(1), vec![13, 12, 11]);
        assert!(c.download(1, Some(13)).is_some());
    }
}

#[test]
fn messages_that_need_outside_work_come_back() {
    let mut c = controller(DownloadNewEpisodes::Never);
    for message in [
        Message::Ui(UiMsg::Quit),
        Message::Ui(UiMsg::SyncAll),
        Message::Ui(UiMsg::Play(1, 13)),
        Message::Ui(UiMsg::RemovePodcast(1, true)),
        Message::Dl(DownloadMsg::Complete(finished(13, 1, "/music/13.mp3"))),
    ] {
        assert_eq!(c.handle_message(message.clone()), Err(message));
    }
    assert_eq!(c.sync_counter, 0);
    assert!(!c.clone_episode(1, 13).unwrap().played);
}

#[test]
fn what_is_taken_over_from_storage_is_shown_under_the_active_filters() {
    let mut c = controller(DownloadNewEpisodes::Never);
    c.filter_change(FilterType::Played);
    assert_eq!(c.filters.played, FilterStatus::NegativeCases);
    // Episode 13 was hidden in storage; 12 is played, 11 is not.
    let left = vec![episode(12, 1, true, Some("/music/alpha/12.mp3")), episode(11, 1, false, None)];
    assert_eq!(c.remove_episode(1, left), vec![MainMessage::UiUpdateMenus]);
    assert_eq!(c.episode_ids(1), vec![12, 11]);
    assert_eq!(filtered(&c, 1), vec![11]);
    assert_eq!(c.podcasts.borrow_filtered_order(), &vec![1]);

    let (to_hide, messages) = c.remove_all_episodes(1);
    assert_eq!(to_hide, vec![12, 11]);
    assert_eq!(messages, vec![MainMessage::UiUpdateMenus]);
    assert_eq!(c.podcasts.borrow_order(), &vec![1, 2]);
    assert_eq!(c.podcasts.borrow_filtered_order(), &Vec::<i64>::new());

    let pods = vec![podcast(2, "Beta", vec![episode(21, 2, true, None)]), podcast(3, "Gamma", vec![episode(31, 3, false, None)])];
    assert_eq!(c.remove_podcast(Some(pods)), vec![MainMessage::UiUpdateMenus]);
    assert_eq!(c.podcasts.borrow_order(), &vec![2, 3]);
    assert_eq!(c.podcasts.borrow_filtered_order(), &vec![3]);
    assert_eq!(filtered(&c, 2), Vec::<i64>::new());
    assert_eq!(filtered(&c, 3), vec![31]);
}
