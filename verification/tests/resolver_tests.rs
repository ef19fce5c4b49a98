use shotliner_corelib::production::Department;
use shotliner_corelib::shotliner_document::{
    resolve_tag_references, ScreenplayCoordinate, ShotlinerDoc, Tag, TagID, TaggedElement,
    TaggedElementID,
};
use shotliner_corelib::store::{DocError, EntityStore};

fn coord(page: usize, line: usize, element: Option<u64>) -> ScreenplayCoordinate {
    ScreenplayCoordinate { page, line, element }
}

fn fresh_doc() -> ShotlinerDoc {
    let screenplay =
        screenplay_doc_parser_rs::screenplay_document::ScreenplayDocument::default();
    ShotlinerDoc::new(screenplay)
}

fn props_tag(name: &str) -> Tag {
    Tag { string: name.to_string(), departments: vec![Department::Props] }
}

fn element_with_tags(tags: Vec<TagID>) -> TaggedElement {
    TaggedElement {
        ocurrances: Vec::new(),
        origin: coord(1, 1, Some(7)),
        endpoint: coord(1, 1, Some(8)),
        tags,
    }
}

#[test]
fn resolver_keeps_live_references_in_order_and_drops_stale_ones() {
    let mut tags_store: EntityStore<Tag> = EntityStore::new();
    tags_store.add(1, props_tag("a")).unwrap();
    tags_store.add(3, props_tag("c")).unwrap();
    let stored = vec![TagID(1), TagID(2), TagID(3), TagID(4)];
    let resolved = resolve_tag_references(&stored, &tags_store);
    assert_eq!(resolved, vec![TagID(1), TagID(3)]);
}

#[test]
fn removing_a_tag_heals_reads_without_touching_the_element() {
    let mut doc = fresh_doc();
    let t = TagID(10);
    let e = TaggedElementID(20);
    doc.add_tag(props_tag("Window"), t).unwrap();
    doc.add_tagged_element(e, element_with_tags(vec![t])).unwrap();
    assert_eq!(doc.get_resolved_tags(&e).unwrap(), vec![t]);
    doc.remove_tag(t).unwrap();
    let healed = doc.get_resolved_tags(&e).unwrap();
    assert!(!healed.contains(&t));
    assert_eq!(healed, vec![]);
}

#[test]
fn props_scenario_resolves_to_empty_after_tag_removal() {
    let mut doc = fresh_doc();
    let t1 = TagID(1);
    let e1 = TaggedElementID(2);
    doc.add_tag(props_tag("Props"), t1).unwrap();
    doc.add_tagged_element(e1, element_with_tags(vec![t1])).unwrap();
    doc.remove_tag(t1).unwrap();
    assert_eq!(doc.get_resolved_tags(&e1).unwrap(), vec![]);
}

#[test]
fn resolved_tags_of_missing_element_reports_not_found() {
    let doc = fresh_doc();
    assert_eq!(doc.get_resolved_tags(&TaggedElementID(99)).err(), Some(DocError::NotFound));
}

#[test]
fn prune_writes_the_resolved_list_back() {
    let mut doc = fresh_doc();
    let live = TagID(1);
    let stale = TagID(2);
    let e = TaggedElementID(3);
    doc.add_tag(props_tag("kept"), live).unwrap();
    doc.add_tagged_element(e, element_with_tags(vec![live, stale])).unwrap();
    assert_eq!(doc.prune_tagged_element_tags(&e), Ok(()));
    let stored = doc.annotation_map.tagged_elements.get(e.0).unwrap();
    assert_eq!(stored.tags, vec![live]);
    assert_eq!(doc.prune_tagged_element_tags(&TaggedElementID(99)), Err(DocError::NotFound));
}

#[test]
fn stale_reference_is_not_an_error_and_element_survives() {
    let mut doc = fresh_doc();
    let t = TagID(4);
    let e = TaggedElementID(5);
    doc.add_tag(props_tag("x"), t).unwrap();
    doc.add_tagged_element(e, element_with_tags(vec![t])).unwrap();
    doc.remove_tag(t).unwrap();
    // the stored element still holds the stale reference
    let stored = doc.annotation_map.tagged_elements.get(e.0).unwrap();
    assert_eq!(stored.tags, vec![t]);
    // but every read path filters it out
    assert_eq!(doc.get_resolved_tags(&e).unwrap(), vec![]);
}
