use std::cell::Cell;

use git_tailor::app::{AppMode, AppState, AutofixupPair, ConflictState, SquashMode};
use git_tailor::dispatch::{
    apply_pending_autofixup_selection, handle_execute_autofixup, handle_execute_drop, handle_execute_move,
    handle_rebase_abort, handle_redo, handle_undo, report_stage_outcome, report_undo, AutostashRestore, GitRepo,
    LoopAction, RebaseOutcome, RepoCall, StageOutcome,
};
use git_tailor::oid::{CommitInfo, VirtualOid};
use git_tailor::journal::UndoOutcome;
use git_tailor::oid::Oid;

/// Minimal repository stub for the main-loop helpers.
struct MockRepo {
    head_ok: bool,
    drop_ok: bool,
    move_ok: bool,
    abort_ok: bool,
    autofixup_ok: bool,
    autofixup_conflicts: bool,
    undo_skips_autostash: bool,
    redo_skips_autostash: bool,
    autostash_restore_ok: bool,
    stage_ok: bool,
    stage_changed: bool,
    autostash_save_calls: Cell<usize>,
    autostash_restore_calls: Cell<usize>,
    log: Vec<String>,
    requests: Vec<RepoCall>,
}

impl Default for MockRepo {
    fn default() -> Self {
        Self {
            head_ok: true,
            drop_ok: true,
            move_ok: true,
            abort_ok: true,
            autofixup_ok: true,
            autofixup_conflicts: false,
            undo_skips_autostash: false,
            redo_skips_autostash: false,
            autostash_restore_ok: true,
            stage_ok: true,
            stage_changed: true,
            autostash_save_calls: Cell::new(0),
            autostash_restore_calls: Cell::new(0),
            log: Vec::new(),
            requests: Vec::new(),
        }
    }
}

impl MockRepo {
    fn stage_all(&self) -> Result<StageOutcome, String> {
        if !self.stage_ok {
            return Err("stage failed".to_string());
        }
        Ok(if self.stage_changed { StageOutcome::Changed } else { StageOutcome::NoOp })
    }
}

impl GitRepo for MockRepo {
    fn calls(&self) -> Vec<RepoCall> {
        self.requests.clone()
    }
    fn head(&self) -> Oid {
        Oid::new("a".repeat(40))
    }
    fn undo_keeps_worktree(&self) -> bool {
        self.undo_skips_autostash
    }
    fn redo_keeps_worktree(&self) -> bool {
        self.redo_skips_autostash
    }
    fn pending_undo_skips_autostash(&self) -> Result<bool, String> {
        Ok(self.undo_skips_autostash)
    }
    fn pending_redo_skips_autostash(&self) -> Result<bool, String> {
        Ok(self.redo_skips_autostash)
    }
    fn undo(&mut self) -> Result<UndoOutcome, String> {
        self.log.push("undo".to_string());
        self.requests.push(RepoCall::Undo);
        if self.undo_skips_autostash {
            Ok(UndoOutcome::Done { label: "Stage all".to_string() })
        } else {
            Ok(UndoOutcome::Empty)
        }
    }
    fn redo(&mut self) -> Result<UndoOutcome, String> {
        self.log.push("redo".to_string());
        self.requests.push(RepoCall::Redo);
        if self.redo_skips_autostash {
            Ok(UndoOutcome::Done { label: "Stage all".to_string() })
        } else {
            Ok(UndoOutcome::Empty)
        }
    }
    fn autostash_save(&mut self) -> Result<(), String> {
        self.log.push("save".to_string());
        self.requests.push(RepoCall::AutostashSave);
        self.autostash_save_calls.set(self.autostash_save_calls.get() + 1);
        Ok(())
    }
    fn autostash_restore(&mut self) -> Result<AutostashRestore, String> {
        self.log.push("restore".to_string());
        self.requests.push(RepoCall::AutostashRestore);
        self.autostash_restore_calls.set(self.autostash_restore_calls.get() + 1);
        if self.autostash_restore_ok {
            Ok(AutostashRestore::Done)
        } else {
            Ok(AutostashRestore::Conflict { files: vec!["conflict.txt".to_string()] })
        }
    }
    fn head_oid(&self) -> Result<Oid, String> {
        if self.head_ok { Ok(Oid::new("a".repeat(40))) } else { Err("head error".to_string()) }
    }
    fn drop_commit(&mut self, commit: &Oid, head: &Oid) -> Result<RebaseOutcome, String> {
        self.requests.push(RepoCall::Drop { commit: commit.clone(), head: head.clone() });
        self.log.push(format!("drop {} {}", &commit.hex[..1], &head.hex[..1]));
        if self.drop_ok { Ok(RebaseOutcome::Complete) } else { Err("drop failed".to_string()) }
    }
    fn move_commit(&mut self, commit: &Oid, after: Option<&Oid>, head: &Oid) -> Result<RebaseOutcome, String> {
        self.requests.push(RepoCall::Move { commit: commit.clone(), insert_after: after.cloned(), head: head.clone() });
        let after = after.map(|o| o.hex[..1].to_string()).unwrap_or_else(|| "-".to_string());
        self.log.push(format!("move {} {} {}", &commit.hex[..1], after, &head.hex[..1]));
        if self.move_ok { Ok(RebaseOutcome::Complete) } else { Err("move failed".to_string()) }
    }
    fn rebase_abort(&mut self, state: &ConflictState) -> Result<(), String> {
        self.requests.push(RepoCall::RebaseAbort(state.clone()));
        self.log.push(format!("abort {}", state.operation_label));
        if self.abort_ok { Ok(()) } else { Err("abort failed".to_string()) }
    }
    fn autofixup(&mut self, head: &Oid, reference: &Oid, overrides: &Vec<(String, String)>) -> Result<RebaseOutcome, String> {
        self.requests.push(RepoCall::Autofixup {
            head: head.clone(),
            reference: reference.clone(),
            message_overrides: overrides.clone(),
        });
        self.log.push(format!("autofixup {} {} {}", &head.hex[..1], &reference.hex[..1], overrides.len()));
        if self.autofixup_conflicts {
            return Ok(RebaseOutcome::Conflict(Box::new(conflict_state("Squash"))));
        }
        if self.autofixup_ok { Ok(RebaseOutcome::Complete) } else { Err("autofixup failed".to_string()) }
    }
}

fn conflict_state(label: &str) -> ConflictState {
    ConflictState {
        operation_label: label.to_string(),
        original_branch_oid: Oid::new("b".repeat(40)),
        new_tip_oid: Oid::new("c".repeat(40)),
        conflicting_commit_oid: Oid::new("d".repeat(40)),
        remaining_oids: vec![],
        conflicting_files: vec![],
        still_unresolved: false,
    }
}

fn app() -> AppState {
    AppState::new(Oid::new("0".repeat(40)))
}

#[test]
fn worktree_preserving_undo_skips_autostash() {
    let mut repo = MockRepo { undo_skips_autostash: true, ..MockRepo::default() };
    let mut app = app();
    let result = handle_undo(&mut repo, &mut app);
    assert!(matches!(result, Ok(LoopAction::Reload)));
    assert_eq!(repo.autostash_save_calls.get(), 0);
    assert_eq!(app.status_message.as_deref(), Some("Undid stage all"));
    assert!(!app.status_is_error);
}

#[test]
fn ref_move_undo_runs_autostash() {
    let mut repo = MockRepo::default();
    let mut app = app();
    let _ = handle_undo(&mut repo, &mut app);
    assert_eq!(repo.autostash_save_calls.get(), 1);
}

#[test]
fn ref_move_undo_restores_the_stash_and_reports_nothing_to_undo() {
    let mut repo = MockRepo::default();
    let mut app = app();
    let result = handle_undo(&mut repo, &mut app);
    assert!(matches!(result, Ok(LoopAction::Continue)));
    assert_eq!(repo.autostash_restore_calls.get(), 1);
    assert_eq!(app.status_message.as_deref(), Some("Nothing to undo"));
}

#[test]
fn worktree_preserving_redo_reports_the_operation() {
    let mut repo = MockRepo { redo_skips_autostash: true, ..MockRepo::default() };
    let mut app = app();
    let result = handle_redo(&mut repo, &mut app);
    assert!(matches!(result, Ok(LoopAction::Reload)));
    assert_eq!(repo.autostash_save_calls.get(), 0);
    assert_eq!(app.status_message.as_deref(), Some("Redid stage all"));
}

#[test]
fn a_conflicting_stash_opens_the_stash_conflict_dialog() {
    let mut repo = MockRepo { autostash_restore_ok: false, ..MockRepo::default() };
    let mut app = app();
    let result = handle_undo(&mut repo, &mut app);
    assert!(matches!(result, Ok(LoopAction::Continue)));
    match &app.mode {
        AppMode::StashConflict(state) => {
            assert_eq!(state.operation_label, "Undo");
            assert_eq!(state.conflicting_files, vec!["conflict.txt".to_string()]);
        }
        other => panic!("expected StashConflict mode, got {other:?}"),
    }
}

#[test]
fn report_undo_covers_every_answer() {
    let mut app = app();
    assert_eq!(report_undo(&mut app, Ok(UndoOutcome::Stale), false), LoopAction::Reload);
    assert!(app.status_is_error);
    assert_eq!(report_undo(&mut app, Err("boom".to_string()), true), LoopAction::Continue);
    assert_eq!(app.status_message.as_deref(), Some("Redo failed: boom"));
    assert_eq!(report_undo(&mut app, Ok(UndoOutcome::Done { label: "drop".to_string() }), false), LoopAction::Reload);
    assert_eq!(app.status_message.as_deref(), Some("Undid drop"));
    assert_eq!(report_undo(&mut app, Ok(UndoOutcome::Empty), true), LoopAction::Continue);
    assert_eq!(app.status_message.as_deref(), Some("Nothing to redo"));
}

#[test]
fn stage_all_changed_reloads_and_reports_success() {
    let repo = MockRepo::default();
    let mut app = app();
    let action = report_stage_outcome(&mut app, repo.stage_all(), "Staged all changes", "Nothing to stage");
    assert!(matches!(action, LoopAction::Reload));
    assert_eq!(app.status_message.as_deref(), Some("Staged all changes"));
    assert!(!app.status_is_error);
}

#[test]
fn stage_all_noop_reports_without_reload() {
    let repo = MockRepo { stage_changed: false, ..MockRepo::default() };
    let mut app = app();
    let action = report_stage_outcome(&mut app, repo.stage_all(), "Staged all changes", "Nothing to stage");
    assert!(matches!(action, LoopAction::Proceed));
    assert_eq!(app.status_message.as_deref(), Some("Nothing to stage"));
    assert!(!app.status_is_error);
}

#[test]
fn stage_all_error_sets_error_message() {
    let repo = MockRepo { stage_ok: false, ..MockRepo::default() };
    let mut app = app();
    let action = report_stage_outcome(&mut app, repo.stage_all(), "Unstaged all changes", "Nothing to unstage");
    assert!(matches!(action, LoopAction::Proceed));
    assert!(app.status_is_error);
}

#[test]
fn apply_pending_selection_swaps_reload_preserving_for_reload_selecting() {
    let mut app = app();
    app.pending_autofixup_selection = Some(2);
    let result = apply_pending_autofixup_selection(&mut app, true, LoopAction::ReloadPreserving);
    assert!(matches!(result, LoopAction::ReloadSelecting(2)));
    assert_eq!(app.pending_autofixup_selection, None, "consumed on the completing round");
}

#[test]
fn apply_pending_selection_is_a_no_op_for_non_autofixup_operations() {
    let mut app = app();
    app.pending_autofixup_selection = Some(2);
    let result = apply_pending_autofixup_selection(&mut app, false, LoopAction::ReloadPreserving);
    assert!(matches!(result, LoopAction::ReloadPreserving));
    assert_eq!(app.pending_autofixup_selection, Some(2), "not this batch's field to touch");
}

#[test]
fn apply_pending_selection_falls_back_when_nothing_was_stashed() {
    let mut app = app();
    let result = apply_pending_autofixup_selection(&mut app, true, LoopAction::ReloadPreserving);
    assert!(matches!(result, LoopAction::ReloadPreserving));
}

#[test]
fn apply_pending_selection_keeps_the_index_across_another_conflict_round() {
    let mut app = app();
    app.pending_autofixup_selection = Some(2);
    let result = apply_pending_autofixup_selection(&mut app, true, LoopAction::Continue);
    assert!(matches!(result, LoopAction::Continue));
    assert_eq!(app.pending_autofixup_selection, Some(2), "still resolving the batch; next round needs it");
}

#[test]
fn apply_pending_selection_clears_stale_state_on_failure() {
    let mut app = app();
    app.pending_autofixup_selection = Some(2);
    let result = apply_pending_autofixup_selection(&mut app, true, LoopAction::Proceed);
    assert!(matches!(result, LoopAction::Proceed));
    assert_eq!(app.pending_autofixup_selection, None, "batch abandoned; don't leak into a later, unrelated reload");
}

#[test]
fn execute_drop_complete_sets_success_message() {
    let mut repo = MockRepo::default();
    let mut app = app();
    let result = handle_execute_drop(&mut repo, &mut app, Oid::new("a".repeat(40)), Oid::new("b".repeat(40)));
    assert!(matches!(result, Ok(LoopAction::ReloadPreserving)));
    assert_eq!(app.status_message.as_deref(), Some("Commit dropped"));
    assert!(!app.status_is_error);
}

#[test]
fn execute_drop_opens_stash_conflict_dialog_on_conflict() {
    let mut repo = MockRepo { autostash_restore_ok: false, ..MockRepo::default() };
    let mut app = app();
    let result = handle_execute_drop(&mut repo, &mut app, Oid::new("a".repeat(40)), Oid::new("b".repeat(40)));
    assert!(matches!(result, Ok(LoopAction::Continue)));
    match &app.mode {
        AppMode::StashConflict(state) => {
            assert_eq!(state.operation_label, "Drop");
            assert_eq!(state.conflicting_files, vec!["conflict.txt".to_string()]);
        }
        other => panic!("expected StashConflict mode, got {other:?}"),
    }
}

#[test]
fn execute_drop_error_sets_error_message() {
    let mut repo = MockRepo { drop_ok: false, ..MockRepo::default() };
    let mut app = app();
    let _ = handle_execute_drop(&mut repo, &mut app, Oid::new("a".repeat(40)), Oid::new("b".repeat(40)));
    assert!(app.status_is_error);
    assert!(app.status_message.as_deref().unwrap_or("").contains("Drop failed"));
}

#[test]
fn execute_move_complete_sets_success_message() {
    let mut repo = MockRepo::default();
    let mut app = app();
    let result = handle_execute_move(&mut repo, &mut app, Oid::new("a".repeat(40)), None);
    assert!(matches!(result, Ok(LoopAction::ReloadPreserving)));
    assert_eq!(app.status_message.as_deref(), Some("Commit moved"));
    assert!(!app.status_is_error);
}

#[test]
fn execute_move_head_error_continues() {
    let mut repo = MockRepo { head_ok: false, ..MockRepo::default() };
    let mut app = app();
    let result = handle_execute_move(&mut repo, &mut app, Oid::new("a".repeat(40)), None);
    assert!(matches!(result, Ok(LoopAction::Continue)));
    assert!(app.status_is_error);
}

#[test]
fn rebase_abort_success_sets_success_message() {
    let mut repo = MockRepo::default();
    let mut app = app();
    let result = handle_rebase_abort(&mut repo, &mut app, conflict_state("Drop"));
    assert!(matches!(result, Ok(LoopAction::Reload)));
    assert!(!app.status_is_error);
    assert!(app.status_message.as_deref().unwrap_or("").contains("aborted"));
}

#[test]
fn rebase_abort_error_sets_error_message() {
    let mut repo = MockRepo { abort_ok: false, ..MockRepo::default() };
    let mut app = app();
    let _ = handle_rebase_abort(&mut repo, &mut app, conflict_state("Drop"));
    assert!(app.status_is_error);
    assert!(app.status_message.as_deref().unwrap_or("").contains("Abort failed"));
}

fn row(c: &str) -> CommitInfo {
    CommitInfo { oid: VirtualOid::Real(Oid::new(c.repeat(40))), summary: String::new(), message: String::new() }
}

fn fixup(source: &str, target: &str) -> AutofixupPair {
    AutofixupPair {
        source_oid: Oid::new(source.repeat(40)),
        target_oid: Oid::new(target.repeat(40)),
        source_summary: String::new(),
        target_summary: String::new(),
        source_message: String::new(),
        target_message: String::new(),
        mode: SquashMode::Fixup,
    }
}

fn batch_app() -> AppState {
    let mut app = app();
    app.commits = vec![row("a"), row("t"), row("1"), row("c"), row("2")];
    app.selection_index = 4; // F2, folded into T (index 1).
    app
}

#[test]
fn execute_autofixup_reloads_selecting_the_computed_index() {
    let mut repo = MockRepo::default();
    let mut app = batch_app();
    let result = handle_execute_autofixup(
        &mut repo,
        &mut app,
        Oid::new("a".repeat(40)),
        Oid::new("b".repeat(40)),
        vec![fixup("1", "t"), fixup("2", "t")],
        Vec::new(),
    );
    assert!(matches!(result, Ok(LoopAction::ReloadSelecting(1))));
    assert_eq!(app.status_message.as_deref(), Some("Commits autofixed up"));
}

#[test]
fn execute_autofixup_stashes_the_index_when_it_hits_a_conflict() {
    let mut repo = MockRepo { autofixup_conflicts: true, ..MockRepo::default() };
    let mut app = batch_app();
    let result = handle_execute_autofixup(
        &mut repo,
        &mut app,
        Oid::new("a".repeat(40)),
        Oid::new("b".repeat(40)),
        vec![fixup("1", "t"), fixup("2", "t")],
        Vec::new(),
    );
    assert!(matches!(result, Ok(LoopAction::Continue)));
    assert_eq!(
        app.pending_autofixup_selection,
        Some(1),
        "the target index computed up front must survive into the conflict dialog"
    );
    assert!(matches!(app.mode, AppMode::RebaseConflict(_)));
}

#[test]
fn execute_drop_stashes_around_the_rewrite_in_order() {
    let mut repo = MockRepo::default();
    let mut app = app();
    let _ = handle_execute_drop(&mut repo, &mut app, Oid::new("a".repeat(40)), Oid::new("b".repeat(40)));
    assert_eq!(repo.log, vec!["save", "drop a b", "restore"]);
}

#[test]
fn execute_move_passes_the_head_it_read() {
    let mut repo = MockRepo::default();
    let mut app = app();
    let _ = handle_execute_move(&mut repo, &mut app, Oid::new("e".repeat(40)), Some(Oid::new("f".repeat(40))));
    assert_eq!(repo.log, vec!["save", "move e f a", "restore"]);
    let mut repo = MockRepo::default();
    let _ = handle_execute_move(&mut repo, &mut app, Oid::new("e".repeat(40)), None);
    assert_eq!(repo.log, vec!["save", "move e - a", "restore"]);
}

#[test]
fn execute_move_head_error_asks_nothing_else() {
    let mut repo = MockRepo { head_ok: false, ..MockRepo::default() };
    let mut app = app();
    let _ = handle_execute_move(&mut repo, &mut app, Oid::new("e".repeat(40)), None);
    assert!(repo.log.is_empty());
}

#[test]
fn execute_autofixup_keeps_the_stash_while_paused() {
    let mut repo = MockRepo { autofixup_conflicts: true, ..MockRepo::default() };
    let mut app = app();
    let overrides = vec![("t".to_string(), "m".to_string())];
    let _ = handle_execute_autofixup(
        &mut repo, &mut app, Oid::new("c".repeat(40)), Oid::new("d".repeat(40)), vec![], overrides);
    assert_eq!(repo.log, vec!["save", "autofixup c d 1"]);
    assert!(matches!(app.mode, AppMode::RebaseConflict(_)));
}

#[test]
fn rebase_abort_passes_the_paused_state() {
    let mut repo = MockRepo::default();
    let mut app = app();
    let _ = handle_rebase_abort(&mut repo, &mut app, conflict_state("Move"));
    assert_eq!(repo.log, vec!["abort Move"]);
}

#[test]
fn undo_and_redo_ask_for_their_own_step() {
    let mut repo = MockRepo::default();
    let mut app = app();
    let _ = handle_undo(&mut repo, &mut app);
    assert_eq!(repo.log, vec!["save", "undo", "restore"]);
    let mut repo = MockRepo { redo_skips_autostash: true, ..MockRepo::default() };
    let _ = handle_redo(&mut repo, &mut app);
    assert_eq!(repo.log, vec!["redo"]);
}

#[test]
fn the_request_log_records_the_stash_around_a_drop() {
    let mut repo = MockRepo::default();
    let mut app = app();
    let _ = handle_execute_drop(&mut repo, &mut app, Oid::new("a".repeat(40)), Oid::new("b".repeat(40)));
    let calls = repo.calls();
    assert!(matches!(calls.first(), Some(RepoCall::AutostashSave)));
    assert!(matches!(calls.last(), Some(RepoCall::AutostashRestore)));
}
