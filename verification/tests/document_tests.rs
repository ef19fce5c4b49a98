use shotliner_corelib::commands::{CommandHistory, CommandHistoryStatus, Intent};
use shotliner_corelib::production::{
    Department, Shot, ShotComposition, ShotID, ShotNumber, ShotSubType, ShotType,
};
use shotliner_corelib::shotliner_document::{
    ScreenplayCoordinate, ShotLine, ShotlinerDoc, Tag, TagID,
};
use shotliner_corelib::store::DocError;

fn fresh_doc() -> ShotlinerDoc {
    let screenplay =
        screenplay_doc_parser_rs::screenplay_document::ScreenplayDocument::default();
    ShotlinerDoc::new(screenplay)
}

fn coord(page: usize, line: usize) -> ScreenplayCoordinate {
    ScreenplayCoordinate { page, line, element: None }
}

#[test]
fn test_add_stuff_to_annotation_map() {
    let mut doc = fresh_doc();
    let new_tag_id = TagID::new();
    let new_tag = Tag { string: "Prop1".to_string(), departments: vec![Department::Props] };
    doc.add_tag(new_tag, new_tag_id).expect("Failed to add tag.");

    let mut new_composition = ShotComposition::new();
    new_composition.add_tag(&new_tag_id).expect("Failed to add tag to shot.");

    let shotline = ShotLine { start: coord(1, 2), end: coord(1, 4), unfilmed_lines: None };
    let shot = Shot {
        shot_number: Some(ShotNumber("1A".to_string())),
        primary_composition: new_composition,
        sub_compositions: None,
        shotline: Some(shotline),
    };
    doc.add_shotline(shot, ShotID::new()).expect("Failed to add Shot.");
    assert_eq!(doc.annotation_map.shotlines.len(), 1);
    assert_eq!(doc.annotation_map.tags.len(), 1);
    let (_, stored_tag) = {
        let pair = doc.annotation_map.tags.entry_at(0);
        (pair.0, pair.1.string.clone())
    };
    assert_eq!(stored_tag, "Prop1");
}

#[test]
fn shotline_ops_report_the_right_errors() {
    let mut doc = fresh_doc();
    let id = ShotID(1);
    assert_eq!(doc.add_shotline(Shot::new(), id), Ok(()));
    assert_eq!(doc.add_shotline(Shot::new(), id), Err(DocError::DuplicateID));
    assert_eq!(doc.modify_shotline(&id, Shot::new()), Ok(()));
    assert_eq!(doc.remove_shotline(&id), Ok(()));
    assert_eq!(doc.remove_shotline(&id), Err(DocError::NotFound));
    assert_eq!(doc.modify_shotline(&id, Shot::new()), Err(DocError::NotFound));
}

#[test]
fn tag_ops_report_the_right_errors() {
    let mut doc = fresh_doc();
    let id = TagID(1);
    let mk = |s: &str| Tag { string: s.to_string(), departments: vec![] };
    assert_eq!(doc.modify_tag(mk("x"), id), Err(DocError::NotFound));
    assert_eq!(doc.add_tag(mk("x"), id), Ok(()));
    assert_eq!(doc.add_tag(mk("y"), id), Err(DocError::DuplicateID));
    assert_eq!(doc.modify_tag(mk("y"), id), Ok(()));
    assert_eq!(doc.annotation_map.tags.get(id.0).unwrap().string, "y");
    assert_eq!(doc.remove_tag(id), Ok(()));
    assert_eq!(doc.remove_tag(id), Err(DocError::NotFound));
}

#[test]
fn document_execute_undo_redo_work_through_the_installed_history() {
    let mut doc = fresh_doc();
    doc.command_history = Some(CommandHistory::new(8));
    let s1 = ShotID(1);
    let s2 = ShotID(2);
    assert_eq!(
        doc.execute(Intent::AddShotline(s1, Shot::new())),
        Ok(CommandHistoryStatus::ExecuteSuccess)
    );
    assert_eq!(
        doc.execute(Intent::AddShotline(s2, Shot::new())),
        Ok(CommandHistoryStatus::ExecuteSuccess)
    );
    assert_eq!(doc.undo(), Ok(CommandHistoryStatus::UndoSuccess));
    assert_eq!(doc.undo(), Ok(CommandHistoryStatus::UndoSuccess));
    assert_eq!(doc.redo(), Ok(CommandHistoryStatus::ExecuteSuccess));
    assert!(doc.annotation_map.shotlines.contains(s1.0));
    assert!(!doc.annotation_map.shotlines.contains(s2.0));
}

#[test]
fn composition_tag_list_rejects_duplicates_and_removes_cleanly() {
    let mut comp = ShotComposition::new();
    let t1 = TagID(1);
    let t2 = TagID(2);
    assert_eq!(comp.add_tag(&t1), Ok(()));
    assert_eq!(comp.add_tag(&t2), Ok(()));
    assert_eq!(comp.add_tag(&t1), Err(DocError::DuplicateID));
    assert_eq!(comp.tags, vec![t1, t2]);
    assert_eq!(comp.remove_tag(&t1), Ok(()));
    assert_eq!(comp.tags, vec![t2]);
    assert_eq!(comp.remove_tag(&t1), Err(DocError::NotFound));
}

#[test]
fn composition_setters_replace_exactly_one_field() {
    let mut comp = ShotComposition::new();
    assert!(matches!(comp.shot_type, ShotType::Wide));
    comp.shot_type(ShotType::CloseUp);
    assert!(matches!(comp.shot_type, ShotType::CloseUp));
    comp.subtype(Some(ShotSubType::Dolly));
    assert!(matches!(comp.subtype, Some(ShotSubType::Dolly)));
    assert!(matches!(comp.shot_type, ShotType::CloseUp));
    assert!(comp.setup.is_none());
    assert!(comp.camera_metadata.is_none());
}

#[test]
fn shot_and_shotline_constructors_give_the_documented_defaults() {
    let shot = Shot::new();
    assert!(shot.shot_number.is_none());
    assert!(matches!(shot.primary_composition.shot_type, ShotType::Wide));
    assert!(shot.primary_composition.tags.is_empty());
    assert!(shot.sub_compositions.is_none());
    assert!(shot.shotline.is_none());

    let sl = ShotLine::new(coord(2, 3), coord(2, 9));
    assert_eq!(sl.start, coord(2, 3));
    assert_eq!(sl.end, coord(2, 9));
    assert!(sl.unfilmed_lines.is_none());
}

#[test]
fn fresh_documents_start_empty_with_no_history() {
    let doc = fresh_doc();
    assert!(doc.command_history.is_none());
    assert_eq!(doc.annotation_map.shotlines.len(), 0);
    assert_eq!(doc.annotation_map.tags.len(), 0);
    assert_eq!(doc.annotation_map.groups.len(), 0);
    assert_eq!(doc.annotation_map.tagged_elements.len(), 0);
    assert_eq!(doc.annotation_map.shot_setups.len(), 0);
}
