use shotliner_corelib::commands::{CommandHistory, CommandHistoryStatus, Intent};
use shotliner_corelib::production::{Department, Shot, ShotID};
use shotliner_corelib::shotliner_document::{AnnotationMap, Tag, TagID};
use shotliner_corelib::store::DocError;

fn tag(name: &str) -> Tag {
    Tag { string: name.to_string(), departments: vec![Department::Props] }
}

#[test]
fn two_shots_undo_twice_redo_once_leaves_only_first() {
    let mut map = AnnotationMap::new();
    let mut history = CommandHistory::new(16);
    let s1 = ShotID(1);
    let s2 = ShotID(2);
    assert_eq!(
        history.execute(&mut map, Intent::AddShotline(s1, Shot::new())),
        Ok(CommandHistoryStatus::ExecuteSuccess)
    );
    assert_eq!(
        history.execute(&mut map, Intent::AddShotline(s2, Shot::new())),
        Ok(CommandHistoryStatus::ExecuteSuccess)
    );
    assert_eq!(history.undo(&mut map), Ok(CommandHistoryStatus::UndoSuccess));
    assert_eq!(history.undo(&mut map), Ok(CommandHistoryStatus::UndoSuccess));
    assert!(!map.shotlines.contains(s1.0));
    assert!(!map.shotlines.contains(s2.0));
    assert_eq!(history.redo(&mut map), Ok(CommandHistoryStatus::ExecuteSuccess));
    assert!(map.shotlines.contains(s1.0));
    assert!(!map.shotlines.contains(s2.0));
}

#[test]
fn undo_in_reverse_order_restores_pre_sequence_state() {
    let mut map = AnnotationMap::new();
    let mut history = CommandHistory::new(16);
    let t1 = TagID(11);
    history.execute(&mut map, Intent::AddTag(t1, tag("one"))).unwrap();
    history.execute(&mut map, Intent::ModifyTag(t1, tag("two"))).unwrap();
    history.execute(&mut map, Intent::RemoveTag(t1)).unwrap();
    assert!(!map.tags.contains(t1.0));

    assert_eq!(history.undo(&mut map), Ok(CommandHistoryStatus::UndoSuccess));
    assert_eq!(map.tags.get(t1.0).unwrap().string, "two");
    assert_eq!(history.undo(&mut map), Ok(CommandHistoryStatus::UndoSuccess));
    assert_eq!(map.tags.get(t1.0).unwrap().string, "one");
    assert_eq!(history.undo(&mut map), Ok(CommandHistoryStatus::UndoSuccess));
    assert!(!map.tags.contains(t1.0));
    assert_eq!(map.tags.len(), 0);
    assert_eq!(history.undo(&mut map), Ok(CommandHistoryStatus::UndoLimitReached));
}

#[test]
fn fresh_edit_after_undo_discards_forward_branch() {
    let mut map = AnnotationMap::new();
    let mut history = CommandHistory::new(16);
    history.execute(&mut map, Intent::AddTag(TagID(1), tag("a"))).unwrap();
    history.execute(&mut map, Intent::AddTag(TagID(2), tag("b"))).unwrap();
    assert_eq!(history.undo(&mut map), Ok(CommandHistoryStatus::UndoSuccess));
    assert_eq!(
        history.execute(&mut map, Intent::AddTag(TagID(3), tag("c"))),
        Ok(CommandHistoryStatus::ExecuteSuccess)
    );
    assert_eq!(history.redo(&mut map), Ok(CommandHistoryStatus::RedoLimitReached));
    assert!(map.tags.contains(1));
    assert!(!map.tags.contains(2));
    assert!(map.tags.contains(3));
}

#[test]
fn bounded_history_evicts_oldest_and_caps_undo_depth() {
    let mut map = AnnotationMap::new();
    let mut history = CommandHistory::new(2);
    history.execute(&mut map, Intent::AddTag(TagID(1), tag("a"))).unwrap();
    history.execute(&mut map, Intent::AddTag(TagID(2), tag("b"))).unwrap();
    history.execute(&mut map, Intent::AddTag(TagID(3), tag("c"))).unwrap();
    assert_eq!(history.current_history_size(), 2);
    assert_eq!(history.index(), 2);
    assert_eq!(history.undo(&mut map), Ok(CommandHistoryStatus::UndoSuccess));
    assert_eq!(history.undo(&mut map), Ok(CommandHistoryStatus::UndoSuccess));
    assert_eq!(history.undo(&mut map), Ok(CommandHistoryStatus::UndoLimitReached));
    // the oldest edit is unrecoverable: its tag stays applied
    assert!(map.tags.contains(1));
    assert!(!map.tags.contains(2));
    assert!(!map.tags.contains(3));
}

#[test]
fn execute_reports_the_store_error_and_changes_nothing() {
    let mut map = AnnotationMap::new();
    let mut history = CommandHistory::new(4);
    history.execute(&mut map, Intent::AddTag(TagID(1), tag("a"))).unwrap();
    assert_eq!(
        history.execute(&mut map, Intent::AddTag(TagID(1), tag("b"))),
        Err(DocError::DuplicateID)
    );
    assert_eq!(map.tags.get(1).unwrap().string, "a");
    assert_eq!(history.current_history_size(), 1);
    assert_eq!(
        history.execute(&mut map, Intent::ModifyTag(TagID(9), tag("x"))),
        Err(DocError::NotFound)
    );
    assert_eq!(
        history.execute(&mut map, Intent::RemoveTag(TagID(9))),
        Err(DocError::NotFound)
    );
    assert_eq!(
        history.execute(&mut map, Intent::ModifyShotline(ShotID(9), Shot::new())),
        Err(DocError::NotFound)
    );
    assert_eq!(
        history.execute(&mut map, Intent::RemoveShotline(ShotID(9))),
        Err(DocError::NotFound)
    );
    assert_eq!(history.current_history_size(), 1);
    assert_eq!(history.index(), 1);
}

#[test]
fn redo_reapplies_a_modify_forward() {
    let mut map = AnnotationMap::new();
    let mut history = CommandHistory::new(8);
    let t = TagID(5);
    history.execute(&mut map, Intent::AddTag(t, tag("old"))).unwrap();
    history.execute(&mut map, Intent::ModifyTag(t, tag("new"))).unwrap();
    history.undo(&mut map).unwrap();
    assert_eq!(map.tags.get(t.0).unwrap().string, "old");
    assert_eq!(history.redo(&mut map), Ok(CommandHistoryStatus::ExecuteSuccess));
    assert_eq!(map.tags.get(t.0).unwrap().string, "new");
}

#[test]
fn limits_on_fresh_history_are_statuses_not_errors() {
    let mut map = AnnotationMap::new();
    let mut history = CommandHistory::new(4);
    assert_eq!(history.undo(&mut map), Ok(CommandHistoryStatus::UndoLimitReached));
    assert_eq!(history.redo(&mut map), Ok(CommandHistoryStatus::RedoLimitReached));
    assert_eq!(history.index(), 0);
    assert_eq!(history.current_history_size(), 0);
    assert_eq!(history.max_history_size(), 4);
}
