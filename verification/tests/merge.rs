use podcast_core::merge::MergeStep;
use podcast_core::merge::classify;
use podcast_core::merge::details_match;
use podcast_core::merge::find_match;
use podcast_core::merge::plan_merge;
use podcast_core::merge::score;
use podcast_core::types::Episode;
use podcast_core::types::EpisodeNoId;

fn stored(id: i64, title: &str, url: &str, description: &str, pubdate: Option<i64>) -> Episode {
    Episode {
        id,
        pod_id: 1,
        title: title.to_string(),
        url: url.to_string(),
        description: Some(description.to_string()),
        pubdate,
        duration: Some(1800),
        path: None,
        played: false,
    }
}

fn fetched(title: &str, url: &str, description: &str, pubdate: Option<i64>) -> EpisodeNoId {
    EpisodeNoId {
        title: title.to_string(),
        url: url.to_string(),
        description: Some(description.to_string()),
        pubdate,
        duration: Some(1800),
    }
}

fn as_stored(id: i64, ep: &EpisodeNoId) -> Episode {
    Episode {
        id,
        pod_id: 1,
        title: ep.title.clone(),
        url: ep.url.clone(),
        description: ep.description.clone(),
        pubdate: ep.pubdate,
        duration: ep.duration,
        path: None,
        played: false,
    }
}

#[test]
fn score_counts_title_url_and_pubdate() {
    let old = stored(1, "one", "http://a/1", "d", Some(100));
    assert_eq!(score(&fetched("one", "http://a/1", "x", Some(100)), &old), 3);
    assert_eq!(score(&fetched("one", "http://a/1", "x", Some(101)), &old), 2);
    assert_eq!(score(&fetched("one", "http://b/1", "x", Some(100)), &old), 2);
    assert_eq!(score(&fetched("uno", "http://a/1", "x", Some(100)), &old), 2);
    assert_eq!(score(&fetched("uno", "http://b/1", "x", Some(100)), &old), 1);
    assert_eq!(score(&fetched("uno", "http://b/1", "x", Some(5)), &old), 0);
}

#[test]
fn score_skips_the_pubdate_where_one_side_has_none() {
    let dated = stored(1, "one", "http://a/1", "d", Some(100));
    let undated = stored(2, "one", "http://a/1", "d", None);
    assert_eq!(score(&fetched("one", "http://a/1", "d", None), &dated), 2);
    assert_eq!(score(&fetched("one", "http://a/1", "d", Some(100)), &undated), 2);
    assert_eq!(score(&fetched("one", "http://a/1", "d", None), &undated), 2);
    assert_eq!(score(&fetched("one", "http://b/1", "d", None), &undated), 1);
}

#[test]
fn details_match_compares_all_five_fields() {
    let old = stored(1, "one", "http://a/1", "d", Some(100));
    assert!(details_match(&fetched("one", "http://a/1", "d", Some(100)), &old));
    assert!(!details_match(&fetched("one", "http://a/1", "other", Some(100)), &old));
    assert!(!details_match(&fetched("one", "http://a/1", "d", Some(101)), &old));
    assert!(!details_match(&fetched("one", "http://a/1", "d", None), &old));
    let mut shorter = fetched("one", "http://a/1", "d", Some(100));
    shorter.duration = Some(60);
    assert!(!details_match(&shorter, &old));
    shorter.duration = None;
    assert!(!details_match(&shorter, &old));
    let undated = stored(2, "one", "http://a/1", "d", None);
    assert!(details_match(&fetched("one", "http://a/1", "d", None), &undated));
}

#[test]
fn find_match_takes_the_first_that_reaches_two_points() {
    let old = vec![
        stored(3, "zzz", "http://a/9", "d", Some(300)),
        stored(2, "one", "http://a/1", "newer", Some(200)),
        stored(1, "one", "http://a/1", "older", Some(100)),
    ];
    assert_eq!(find_match(&old, &fetched("one", "http://a/1", "d", Some(100))), Some(1));
    assert_eq!(find_match(&old, &fetched("zzz", "http://a/9", "d", None)), Some(0));
    assert_eq!(find_match(&old, &fetched("nope", "http://a/0", "d", Some(100))), None);
    assert_eq!(find_match(&Vec::new(), &fetched("one", "http://a/1", "d", Some(100))), None);
}

#[test]
fn fresh_feed_is_all_inserts() {
    let feed = vec![
        fetched("one", "http://a/1", "d1", Some(100)),
        fetched("two", "http://a/2", "d2", Some(200)),
        fetched("three", "http://a/3", "d3", Some(300)),
    ];
    let plan = plan_merge(&Vec::new(), &feed);
    assert_eq!(plan, vec![MergeStep::Insert, MergeStep::Insert, MergeStep::Insert]);
}

#[test]
fn changed_pubdate_is_an_update_not_an_insert() {
    let old = vec![stored(7, "one", "http://a/1", "d1", Some(100))];
    let feed = vec![fetched("one", "http://a/1", "d1", Some(101))];
    assert_eq!(score(&feed[0], &old[0]), 2);
    assert_eq!(plan_merge(&old, &feed), vec![MergeStep::Update(7)]);
}

#[test]
fn changed_url_alone_is_an_update() {
    let old = vec![stored(7, "one", "http://a/1", "d1", Some(100))];
    let feed = vec![fetched("one", "http://cdn/1", "d1", Some(100))];
    assert_eq!(plan_merge(&old, &feed), vec![MergeStep::Update(7)]);
}

#[test]
fn changed_title_and_url_look_like_a_new_episode() {
    // Known limitation of the two-of-three rule: the same episode with a new
    // title and a new address is stored again.
    let old = vec![stored(7, "one", "http://a/1", "d1", Some(100))];
    let feed = vec![fetched("one (remastered)", "http://cdn/1", "d1", Some(100))];
    assert_eq!(classify(&old, &feed[0]), MergeStep::Insert);
}

#[test]
fn resync_with_one_change_one_new_and_one_unchanged() {
    let old = vec![
        stored(2, "two", "http://a/2", "d2", Some(200)),
        stored(1, "one", "http://a/1", "d1", Some(100)),
    ];
    let feed = vec![
        fetched("three", "http://a/3", "d3", Some(300)),
        fetched("two", "http://a/2", "d2 rewritten", Some(200)),
        fetched("one", "http://a/1", "d1", Some(100)),
    ];
    let plan = plan_merge(&old, &feed);
    assert_eq!(plan, vec![MergeStep::Insert, MergeStep::Update(2), MergeStep::Unchanged(1)]);
    assert_eq!(plan.iter().filter(|s| **s == MergeStep::Insert).count(), 1);
    assert_eq!(plan.iter().filter(|s| matches!(s, MergeStep::Update(_))).count(), 1);
    assert_eq!(plan.iter().filter(|s| matches!(s, MergeStep::Unchanged(_))).count(), 1);
}

#[test]
fn resync_of_an_unchanged_feed_writes_nothing() {
    let feed = vec![
        fetched("three", "http://a/3", "d3", Some(300)),
        fetched("two", "http://a/2", "d2", None),
        fetched("one", "http://a/1", "d1", Some(100)),
    ];
    assert_eq!(plan_merge(&Vec::new(), &feed), vec![MergeStep::Insert; 3]);
    let after: Vec<Episode> = vec![as_stored(3, &feed[0]), as_stored(2, &feed[1]), as_stored(1, &feed[2])];
    let again = plan_merge(&after, &feed);
    assert_eq!(again, vec![MergeStep::Unchanged(3), MergeStep::Unchanged(2), MergeStep::Unchanged(1)]);
    assert!(again.iter().all(|s| matches!(s, MergeStep::Unchanged(_))));
}

#[test]
fn resync_after_an_update_writes_nothing() {
    let old = vec![stored(1, "one", "http://a/1", "d1", Some(100))];
    let feed = vec![fetched("one", "http://a/1", "d1", Some(150))];
    assert_eq!(plan_merge(&old, &feed), vec![MergeStep::Update(1)]);
    let after = vec![as_stored(1, &feed[0])];
    assert_eq!(plan_merge(&after, &feed), vec![MergeStep::Unchanged(1)]);
}

#[test]
fn look_alikes_in_one_feed_are_not_idempotent() {
    // Two fetched episodes that share title and address: after both are
    // stored, the second is taken for the first and rewrites it.
    let feed = vec![
        fetched("one", "http://a/1", "first text", Some(100)),
        fetched("one", "http://a/1", "second text", Some(200)),
    ];
    let after = vec![as_stored(1, &feed[0]), as_stored(2, &feed[1])];
    assert_eq!(plan_merge(&after, &feed), vec![MergeStep::Unchanged(1), MergeStep::Update(1)]);
}

#[test]
fn each_fetched_episode_gets_one_decision() {
    let old = vec![stored(1, "one", "http://a/1", "d1", Some(100))];
    let feed = vec![
        fetched("one", "http://a/1", "d1", Some(100)),
        fetched("one", "http://a/1", "d1", Some(100)),
    ];
    assert_eq!(plan_merge(&old, &feed).len(), 2);
    assert_eq!(plan_merge(&old, &Vec::new()).len(), 0);
}

#[test]
fn a_missing_description_differs_from_a_present_one() {
    let mut old = stored(1, "one", "http://a/1", "d", Some(100));
    let mut new = fetched("one", "http://a/1", "d", Some(100));
    new.description = None;
    assert!(!details_match(&new, &old));
    assert_eq!(plan_merge(&vec![old.clone()], &vec![new.clone()]), vec![MergeStep::Update(1)]);
    old.description = None;
    assert!(details_match(&new, &old));
    assert_eq!(plan_merge(&vec![old], &vec![new]), vec![MergeStep::Unchanged(1)]);
}

#[test]
fn a_hidden_episode_that_storage_still_lists_is_not_stored_again() {
    // Storage hands the merger every episode of the podcast, hidden ones
    // too, so an episode that the user removed matches and is not inserted.
    let kept_in_storage = vec![stored(5, "gone", "http://a/5", "d", Some(500))];
    let feed = vec![fetched("gone", "http://a/5", "d", Some(500))];
    assert_eq!(plan_merge(&kept_in_storage, &feed), vec![MergeStep::Unchanged(5)]);
}

#[test]
fn resync_writes_nothing_however_storage_arranges_the_episodes() {
    let old = vec![
        stored(2, "two", "http://a/2", "d2", Some(200)),
        stored(1, "one", "http://a/1", "d1", Some(100)),
    ];
    let feed = vec![
        fetched("three", "http://a/3", "d3", Some(300)),
        fetched("two", "http://a/2", "d2", Some(50)),
        fetched("one", "http://a/1", "d1", Some(100)),
    ];
    assert_eq!(plan_merge(&old, &feed), vec![MergeStep::Insert, MergeStep::Update(2), MergeStep::Unchanged(1)]);
    // In the order of writing, and newest first as storage hands it back.
    let written = vec![as_stored(2, &feed[1]), as_stored(1, &feed[2]), as_stored(3, &feed[0])];
    let newest_first = vec![as_stored(3, &feed[0]), as_stored(1, &feed[2]), as_stored(2, &feed[1])];
    for after in [written, newest_first] {
        let again = plan_merge(&after, &feed);
        assert!(again.iter().all(|s| matches!(s, MergeStep::Unchanged(_))), "{again:?}");
    }
}

#[test]
fn a_stored_look_alike_makes_the_arrangement_matter() {
    // Two stored episodes share title and address: the fetched one could be
    // taken for either, and a second sync rewrites whichever comes first.
    let feed = vec![fetched("one", "http://a/1", "new text", Some(100))];
    let old = vec![
        stored(2, "one", "http://a/1", "text b", Some(200)),
        stored(1, "one", "http://a/1", "text a", Some(100)),
    ];
    assert_eq!(plan_merge(&old, &feed), vec![MergeStep::Update(2)]);
    let updated = as_stored(2, &feed[0]);
    assert_eq!(plan_merge(&vec![updated.clone(), old[1].clone()], &feed), vec![MergeStep::Unchanged(2)]);
    assert_eq!(plan_merge(&vec![old[1].clone(), updated], &feed), vec![MergeStep::Update(1)]);
}
