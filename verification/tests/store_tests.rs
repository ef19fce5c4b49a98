use shotliner_corelib::production::Department;
use shotliner_corelib::shotliner_document::Tag;
use shotliner_corelib::store::{DocError, EntityStore};

fn tag(name: &str) -> Tag {
    Tag { string: name.to_string(), departments: vec![Department::Props] }
}

#[test]
fn add_then_add_same_id_fails_and_keeps_first_value() {
    let mut store: EntityStore<Tag> = EntityStore::new();
    assert_eq!(store.add(1, tag("first")), Ok(()));
    assert_eq!(store.add(1, tag("second")), Err(DocError::DuplicateID));
    let held = store.get(1).expect("first value must still be live");
    assert_eq!(held.string, "first");
    assert_eq!(store.len(), 1);
}

#[test]
fn ops_on_never_inserted_id_report_not_found() {
    let mut store: EntityStore<Tag> = EntityStore::new();
    assert_eq!(store.get(42).err(), Some(DocError::NotFound));
    assert_eq!(store.modify(42, tag("x")).err(), Some(DocError::NotFound));
    assert_eq!(store.remove(42).err(), Some(DocError::NotFound));
}

#[test]
fn ops_on_removed_id_report_not_found() {
    let mut store: EntityStore<Tag> = EntityStore::new();
    assert_eq!(store.add(7, tag("x")), Ok(()));
    let removed = store.remove(7).expect("remove of a live id succeeds");
    assert_eq!(removed.string, "x");
    assert_eq!(store.get(7).err(), Some(DocError::NotFound));
    assert_eq!(store.modify(7, tag("y")).err(), Some(DocError::NotFound));
    assert_eq!(store.remove(7).err(), Some(DocError::NotFound));
}

#[test]
fn modify_replaces_and_returns_previous_value() {
    let mut store: EntityStore<Tag> = EntityStore::new();
    assert_eq!(store.add(3, tag("before")), Ok(()));
    let prior = store.modify(3, tag("after")).expect("modify of a live id succeeds");
    assert_eq!(prior.string, "before");
    assert_eq!(store.get(3).expect("still live").string, "after");
    assert_eq!(store.len(), 1);
}

#[test]
fn contains_and_len_track_live_entries() {
    let mut store: EntityStore<Tag> = EntityStore::new();
    assert!(!store.contains(1));
    assert_eq!(store.len(), 0);
    store.add(1, tag("a")).unwrap();
    store.add(2, tag("b")).unwrap();
    assert!(store.contains(1));
    assert!(store.contains(2));
    assert!(!store.contains(3));
    assert_eq!(store.len(), 2);
    store.remove(1).unwrap();
    assert!(!store.contains(1));
    assert_eq!(store.len(), 1);
}

#[test]
fn entry_at_walks_every_live_pair() {
    let mut store: EntityStore<Tag> = EntityStore::new();
    store.add(10, tag("a")).unwrap();
    store.add(20, tag("b")).unwrap();
    let mut seen: Vec<u128> = Vec::new();
    for i in 0..store.len() {
        let pair = store.entry_at(i);
        seen.push(pair.0);
    }
    seen.sort();
    assert_eq!(seen, vec![10, 20]);
}
