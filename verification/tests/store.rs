use podcast_core::store::OrderedStore;
use podcast_core::types::Episode;

fn episode(id: i64, title: &str, played: bool) -> Episode {
    Episode {
        id,
        pod_id: 1,
        title: title.to_string(),
        url: format!("http://example.org/{id}.mp3"),
        description: None,
        pubdate: Some(1_000 + id),
        duration: None,
        path: None,
        played,
    }
}

fn store_of(eps: Vec<Episode>) -> OrderedStore<Episode> {
    let mut store = OrderedStore::new();
    assert!(store.insert_ordered(eps));
    store
}

#[test]
fn new_store_is_empty() {
    let store: OrderedStore<Episode> = OrderedStore::new();
    assert!(store.is_empty());
    assert_eq!(store.len(), 0);
    assert!(store.borrow_order().is_empty());
    assert!(store.borrow_filtered_order().is_empty());
    assert!(!store.contains(1));
}

#[test]
fn insert_ordered_keeps_the_given_order() {
    let store = store_of(vec![episode(30, "c", false), episode(10, "a", false), episode(20, "b", true)]);
    assert_eq!(store.len(), 3);
    assert_eq!(store.borrow_order(), &vec![30, 10, 20]);
    assert_eq!(store.borrow_filtered_order(), &vec![30, 10, 20]);
    assert!(store.contains(10) && store.contains(20) && store.contains(30));
    assert_eq!(store.clone_entity(20).unwrap().title, "b");
}

#[test]
fn canonical_order_is_a_permutation_of_the_keys() {
    let store = store_of(vec![episode(3, "c", false), episode(1, "a", false), episode(2, "b", true)]);
    let mut order = store.borrow_order().clone();
    order.sort();
    order.dedup();
    assert_eq!(order, vec![1, 2, 3]);
    for id in [1, 2, 3] {
        assert!(store.contains(id));
    }
    assert!(!store.contains(4));
}

#[test]
fn insert_ordered_replaces_what_was_there() {
    let mut store = store_of(vec![episode(1, "a", false), episode(2, "b", false)]);
    assert!(store.insert_ordered(vec![episode(5, "e", false)]));
    assert_eq!(store.borrow_order(), &vec![5]);
    assert!(!store.contains(1));
    assert!(store.contains(5));
}

#[test]
fn insert_ordered_refuses_duplicate_identifiers() {
    let mut store = store_of(vec![episode(1, "a", false)]);
    assert!(!store.insert_ordered(vec![episode(7, "x", false), episode(7, "y", false)]));
    assert_eq!(store.borrow_order(), &vec![1]);
    assert_eq!(store.clone_entity(1).unwrap().title, "a");
    assert!(!store.contains(7));
}

#[test]
fn replace_all_resets_the_filtered_order() {
    let mut store = store_of(vec![episode(1, "a", false), episode(2, "b", false)]);
    assert!(store.set_filtered_order(vec![2]));
    assert_eq!(store.borrow_filtered_order(), &vec![2]);
    assert!(store.replace_all(vec![episode(2, "b", false), episode(3, "c", false)]));
    assert_eq!(store.borrow_order(), &vec![2, 3]);
    assert_eq!(store.borrow_filtered_order(), &vec![2, 3]);
}

#[test]
fn replace_swaps_one_entity_and_keeps_both_orders() {
    let mut store = store_of(vec![episode(1, "a", false), episode(2, "b", false), episode(3, "c", false)]);
    assert!(store.set_filtered_order(vec![3, 1]));
    store.replace(2, episode(2, "changed", true));
    assert_eq!(store.borrow_order(), &vec![1, 2, 3]);
    assert_eq!(store.borrow_filtered_order(), &vec![3, 1]);
    let got = store.clone_entity(2).unwrap();
    assert_eq!(got.title, "changed");
    assert!(got.played);
    assert_eq!(store.clone_entity(1).unwrap().title, "a");
}

#[test]
fn replace_of_an_absent_identifier_does_nothing() {
    let mut store = store_of(vec![episode(1, "a", false)]);
    store.replace(9, episode(9, "ghost", false));
    assert_eq!(store.len(), 1);
    assert!(!store.contains(9));
    assert_eq!(store.borrow_order(), &vec![1]);
}

#[test]
fn replace_with_another_identifier_does_nothing() {
    let mut store = store_of(vec![episode(1, "a", false), episode(2, "b", false)]);
    store.replace(1, episode(2, "wrong", false));
    assert_eq!(store.clone_entity(1).unwrap().title, "a");
    assert_eq!(store.clone_entity(2).unwrap().title, "b");
}

#[test]
fn clone_entity_is_detached_from_the_store() {
    let store = store_of(vec![episode(1, "a", false)]);
    let mut copy = store.clone_entity(1).unwrap();
    copy.title = "edited".to_string();
    assert_eq!(store.clone_entity(1).unwrap().title, "a");
    assert!(store.clone_entity(2).is_none());
}

#[test]
fn get_borrows_the_stored_entity() {
    let store = store_of(vec![episode(4, "d", true)]);
    assert_eq!(store.get(4).unwrap().title, "d");
    assert!(store.get(5).is_none());
}

#[test]
fn map_single_applies_to_one_entity() {
    let store = store_of(vec![episode(1, "a", false), episode(2, "b", false)]);
    assert_eq!(store.map_single(2, |e| e.title.clone()), Some("b".to_string()));
    assert_eq!(store.map_single(3, |e| e.title.clone()), None);
}

#[test]
fn map_walks_forward_or_backward() {
    let store = store_of(vec![episode(1, "a", false), episode(2, "b", false), episode(3, "c", false)]);
    assert_eq!(store.map(|e| e.id, false), vec![1, 2, 3]);
    assert_eq!(store.map(|e| e.id, true), vec![3, 2, 1]);
    let empty: OrderedStore<Episode> = OrderedStore::new();
    assert!(empty.map(|e| e.id, true).is_empty());
}

#[test]
fn filter_map_keeps_the_some_results_in_order() {
    let store = store_of(vec![
        episode(1, "a", true),
        episode(2, "b", false),
        episode(3, "c", true),
        episode(4, "d", false),
    ]);
    let unplayed = store.filter_map(|e| if e.played { None } else { Some(e.id) });
    assert_eq!(unplayed, vec![2, 4]);
    let none: Vec<i64> = store.filter_map(|_| None);
    assert!(none.is_empty());
}

#[test]
fn duplicate_copies_the_whole_store() {
    let mut store = store_of(vec![episode(1, "a", false), episode(2, "b", false)]);
    assert!(store.set_filtered_order(vec![2]));
    let copy = store.duplicate();
    store.replace(1, episode(1, "later", false));
    assert_eq!(copy.borrow_order(), &vec![1, 2]);
    assert_eq!(copy.borrow_filtered_order(), &vec![2]);
    assert_eq!(copy.clone_entity(1).unwrap().title, "a");
}

#[test]
fn borrow_map_reads_the_mapping() {
    let store = store_of(vec![episode(1, "a", false), episode(2, "b", true)]);
    let map = store.borrow_map();
    assert_eq!(map.len(), 2);
    assert_eq!(map.get(&2).unwrap().title, "b");
    assert!(map.get(&3).is_none());
}

#[test]
fn set_filtered_order_refuses_strangers_and_repeats() {
    let mut store = store_of(vec![episode(1, "a", false), episode(2, "b", false)]);
    assert!(store.set_filtered_order(vec![2]));
    assert!(!store.set_filtered_order(vec![1, 9]));
    assert!(!store.set_filtered_order(vec![1, 1]));
    assert_eq!(store.borrow_filtered_order(), &vec![2]);
    assert!(store.set_filtered_order(vec![]));
    assert!(store.borrow_filtered_order().is_empty());
    assert_eq!(store.borrow_order(), &vec![1, 2]);
}
