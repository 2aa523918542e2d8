use git_tailor::journal::{
    migrate_v1, read_plan, undo_pin_ref, undo_pins, JournalDoc, JournalStatus, ReadPlan, RevertStep, UndoOutcome, UndoRecord, MAX_UNDO_DEPTH,
};
use git_tailor::oid::Oid;

fn oid(c: &str) -> Oid {
    Oid::new(c.repeat(40))
}

fn ref_move(label: &str, before: &str, after: &str) -> UndoRecord {
    UndoRecord::RefMove { label: label.to_string(), tip_before: oid(before), tip_after: oid(after) }
}

#[test]
fn undo_then_redo_restores_both_stacks() {
    let mut doc = JournalDoc::new();
    doc.push_undo(ref_move("Drop", "a", "b"));
    doc.push_undo(ref_move("Move", "b", "c"));
    match doc.undo_step() {
        RevertStep::Ref { expected, target } => {
            assert_eq!(expected.hex, "c".repeat(40));
            assert_eq!(target.hex, "b".repeat(40));
        }
        other => panic!("unexpected {other:?}"),
    }
    assert!(matches!(doc.finish_undo(true), UndoOutcome::Done { label } if label == "Move"));
    assert_eq!(doc.undo.len(), 1);
    assert_eq!(doc.redo.len(), 1);
    match doc.redo_step() {
        RevertStep::Ref { expected, target } => {
            assert_eq!(expected.hex, "b".repeat(40));
            assert_eq!(target.hex, "c".repeat(40));
        }
        other => panic!("unexpected {other:?}"),
    }
    assert!(matches!(doc.finish_redo(true), UndoOutcome::Done { label } if label == "Move"));
    assert_eq!(doc.undo.len(), 2);
    assert!(doc.redo.is_empty());
}

#[test]
fn a_new_operation_clears_redo() {
    let mut doc = JournalDoc::new();
    doc.push_undo(ref_move("Drop", "a", "b"));
    doc.finish_undo(true);
    assert_eq!(doc.redo.len(), 1);
    doc.push_undo(ref_move("Squash", "a", "d"));
    assert!(doc.redo.is_empty());
}

#[test]
fn the_undo_stack_is_capped() {
    let mut doc = JournalDoc::new();
    for i in 0..(MAX_UNDO_DEPTH + 5) {
        doc.push_undo(ref_move(&format!("op{i}"), "a", "b"));
    }
    assert_eq!(doc.undo.len(), MAX_UNDO_DEPTH);
    assert_eq!(doc.undo.last().unwrap().label(), &format!("op{}", MAX_UNDO_DEPTH + 4));
}

#[test]
fn a_stale_undo_clears_everything_and_an_empty_one_does_nothing() {
    let mut doc = JournalDoc::new();
    assert!(matches!(doc.finish_undo(true), UndoOutcome::Empty));
    assert!(matches!(doc.undo_step(), RevertStep::Nothing));
    doc.push_undo(ref_move("Drop", "a", "b"));
    assert!(matches!(doc.finish_undo(false), UndoOutcome::Stale));
    assert!(doc.undo.is_empty() && doc.redo.is_empty());
}

#[test]
fn an_empty_document_classifies_as_clean() {
    let doc = JournalDoc::new();
    assert!(doc.is_empty());
    assert!(matches!(doc.classify(), JournalStatus::Clean));
}

#[test]
fn index_and_commit_records_revert_with_their_own_steps() {
    let mut doc = JournalDoc::new();
    doc.push_undo(UndoRecord::IndexChange {
        label: "Stage all".to_string(),
        head: oid("h"),
        index_tree_before: oid("1"),
        index_tree_after: oid("2"),
    });
    assert!(doc.pending_undo_skips_autostash());
    match doc.undo_step() {
        RevertStep::Index { head, expected, target } => {
            assert_eq!(head.hex, "h".repeat(40));
            assert_eq!(expected.hex, "2".repeat(40));
            assert_eq!(target.hex, "1".repeat(40));
        }
        other => panic!("unexpected {other:?}"),
    }
    doc.push_undo(UndoRecord::Commit { label: "Commit".to_string(), tip_before: oid("p"), tip_after: oid("q") });
    assert!(matches!(doc.undo_step(), RevertStep::Soft { .. }));
}

#[test]
fn read_plan_depends_on_the_version() {
    assert!(matches!(read_plan(3), ReadPlan::Current));
    assert!(matches!(read_plan(2), ReadPlan::UpgradeAdditive));
    assert!(matches!(read_plan(1), ReadPlan::UpgradeFromV1));
    assert!(matches!(read_plan(99), ReadPlan::TooNew(99)));
}

#[test]
fn a_v1_document_with_a_paused_operation_cannot_be_upgraded() {
    match migrate_v1(Some("Squash".to_string()), vec![], vec![], None) {
        Err(JournalStatus::UpgradeInterrupted { op }) => assert_eq!(op, "Squash"),
        _ => panic!("expected UpgradeInterrupted"),
    }
    let doc = migrate_v1(None, vec![ref_move("Drop", "a", "b")], vec![], None).ok().unwrap();
    assert_eq!(doc.version, 3);
    assert_eq!(doc.undo.len(), 1);
}

#[test]
fn every_stacked_tip_is_pinned_once_in_order() {
    let mut doc = JournalDoc::new();
    doc.push_undo(ref_move("Drop", "b", "a"));
    doc.push_undo(ref_move("Move", "a", "c"));
    doc.push_undo(UndoRecord::IndexChange {
        label: "Stage all".to_string(),
        head: oid("c"),
        index_tree_before: oid("e"),
        index_tree_after: oid("d"),
    });
    doc.finish_undo(true);
    let pins: Vec<String> = undo_pins(&doc).into_iter().map(|o| o.hex).collect();
    assert_eq!(pins, vec!["a".repeat(40), "b".repeat(40), "c".repeat(40), "d".repeat(40), "e".repeat(40)]);
    assert_eq!(undo_pin_ref(12), "refs/git-tailor/undo/12");
    assert!(undo_pins(&JournalDoc::new()).is_empty());
}

#[test]
fn redo_step_puts_head_back_where_the_undo_found_it() {
    let mut doc = JournalDoc::new();
    doc.push_undo(ref_move("Drop", "a", "b"));
    let undo = doc.undo_step();
    assert!(matches!(doc.finish_undo(true), UndoOutcome::Done { .. }));
    let redo = doc.redo_step();
    match (undo, redo) {
        (RevertStep::Ref { expected: e1, target: t1 }, RevertStep::Ref { expected: e2, target: t2 }) => {
            assert_eq!(e2, t1);
            assert_eq!(t2, e1);
            assert_eq!(t2, oid("b"));
        },
        other => panic!("unexpected steps {other:?}"),
    }
}
