//! What the main loop does with the answers of the repository: status
//! messages, follow-up dialogs, and how the commit list is reloaded.

use vstd::prelude::*;
use crate::app::{AppMode, AppState, AutofixupPair, ConflictState, StashConflictState};
use crate::autofixup::{autofixup_target_selection_index, selection_after_batch};
use crate::oid::Oid;
use crate::journal::UndoOutcome;
use crate::text::push_char;

verus! {

/// What the main loop does after handling an event.
#[derive(Clone, Copy, Debug, PartialEq, Eq, Structural)]
pub enum LoopAction {
    /// Redraw and wait for the next event.
    Continue,
    /// Carry on with the rest of this iteration.
    Proceed,
    /// Reload the commit list, selecting the first row.
    Reload,
    /// Reload the commit list, keeping the selected row.
    ReloadPreserving,
    /// Reload the commit list, selecting the given row.
    ReloadSelecting(usize),
    /// Leave the program.
    Quit,
}

/// Whether staging or unstaging changed anything.
#[derive(Clone, Copy, Debug, PartialEq, Eq, Structural)]
pub enum StageOutcome {
    Changed,
    NoOp,
}

/// How re-applying the auto-stash went.
#[derive(Debug)]
pub enum AutostashRestore {
    Done,
    /// The stash conflicted with the new history in these files.
    Conflict { files: Vec<String> },
}

/// How a history-rewriting operation ended.
#[derive(Debug)]
pub enum RebaseOutcome {
    Complete,
    /// Paused on a conflict the user must resolve.
    Conflict(Box<ConflictState>),
}

/// A request made of the repository, as the log of [`GitRepo::calls`]
/// records it.
#[derive(Clone, Debug)]
pub enum RepoCall {
    AutostashSave,
    AutostashRestore,
    Undo,
    Redo,
    Drop { commit: Oid, head: Oid },
    Move { commit: Oid, insert_after: Option<Oid>, head: Oid },
    RebaseAbort(ConflictState),
    Autofixup { head: Oid, reference: Oid, message_overrides: Vec<(String, String)> },
}

/// The repository operations the main loop drives. Errors are reported as
/// their message text. Every operation that changes the repository or the
/// working tree is recorded, with its arguments, at the end of `calls`.
pub trait GitRepo {
    /// The changing operations asked of this repository so far, in order.
    spec fn calls(&self) -> Vec<RepoCall>;

    /// The commit HEAD points at.
    spec fn head(&self) -> Oid;

    /// Whether the next undo keeps the working tree as it is.
    spec fn undo_keeps_worktree(&self) -> bool;

    /// Whether the next redo keeps the working tree as it is.
    spec fn redo_keeps_worktree(&self) -> bool;

    /// Whether the next undo keeps the working tree as it is (so no
    /// auto-stash is needed around it).
    fn pending_undo_skips_autostash(&self) -> (r: Result<bool, String>)
        ensures
            r matches Ok(b) ==> b == self.undo_keeps_worktree();

    /// Whether the next redo keeps the working tree as it is.
    fn pending_redo_skips_autostash(&self) -> (r: Result<bool, String>)
        ensures
            r matches Ok(b) ==> b == self.redo_keeps_worktree();

    /// Revert the last recorded operation.
    fn undo(&mut self) -> (r: Result<UndoOutcome, String>)
        ensures
            final(self).calls()@ == old(self).calls()@.push(RepoCall::Undo);

    /// Re-apply the last undone operation.
    fn redo(&mut self) -> (r: Result<UndoOutcome, String>)
        ensures
            final(self).calls()@ == old(self).calls()@.push(RepoCall::Redo);

    /// Stash uncommitted changes before history is rewritten.
    fn autostash_save(&mut self) -> (r: Result<(), String>)
        ensures
            final(self).calls()@ == old(self).calls()@.push(RepoCall::AutostashSave);

    /// Re-apply what `autostash_save` stashed.
    fn autostash_restore(&mut self) -> (r: Result<AutostashRestore, String>)
        ensures
            final(self).calls()@ == old(self).calls()@.push(RepoCall::AutostashRestore);

    /// The commit HEAD points at.
    fn head_oid(&self) -> (r: Result<Oid, String>)
        ensures
            r matches Ok(h) ==> h == self.head();

    /// Remove `commit` from the branch whose tip is `head`.
    fn drop_commit(&mut self, commit: &Oid, head: &Oid) -> (r: Result<RebaseOutcome, String>)
        ensures
            final(self).calls()@ == old(self).calls()@.push(RepoCall::Drop { commit: *commit, head: *head });

    /// Move `commit` to just after `insert_after` (to the bottom when
    /// `None`) in the branch whose tip is `head`.
    fn move_commit(&mut self, commit: &Oid, insert_after: Option<&Oid>, head: &Oid) -> (r: Result<RebaseOutcome, String>)
        ensures
            final(self).calls()@ == old(self).calls()@.push(RepoCall::Move {
                commit: *commit,
                insert_after: match insert_after { Some(o) => Some(*o), None => None },
                head: *head,
            });

    /// Abandon the paused operation described by `state`.
    fn rebase_abort(&mut self, state: &ConflictState) -> (r: Result<(), String>)
        ensures
            final(self).calls()@ == old(self).calls()@.push(RepoCall::RebaseAbort(*state));

    /// Fold every `fixup!`/`squash!` commit between `reference` and `head`
    /// into its target, with the final messages pinned per target summary.
    fn autofixup(&mut self, head: &Oid, reference: &Oid, message_overrides: &Vec<(String, String)>)
        -> (r: Result<RebaseOutcome, String>)
        ensures
            final(self).calls()@ == old(self).calls()@.push(RepoCall::Autofixup {
                head: *head,
                reference: *reference,
                message_overrides: *message_overrides,
            });
}

/// `prefix` followed by `tail`.
fn joined(prefix: &str, tail: &str) -> (s: String)
    ensures
        s@ == prefix@ + tail@,
{
    let mut s = prefix.to_owned();
    s.append(tail);
    s
}

/// `label` followed by `" failed: "` and the error text.
pub open spec fn failure_message(label: Seq<char>, e: Seq<char>) -> Seq<char> {
    label + " failed: "@ + e
}

fn failure(label: &str, e: &String) -> (s: String)
    ensures
        s@ == failure_message(label@, e@),
{
    let mut s = label.to_owned();
    s.append(" failed: ");
    s.append(e.as_str());
    s
}

/// Whether `app` shows the success message `msg`.
pub open spec fn reports_success(app: AppState, msg: Seq<char>) -> bool {
    !app.status_is_error && (app.status_message matches Some(m) && m@ == msg)
}

/// Whether `app` shows, as an error, the failure of the operation named
/// `label`.
pub open spec fn reports_failure(app: AppState, label: Seq<char>) -> bool {
    app.status_is_error && (app.status_message matches Some(m)
        && exists|e: Seq<char>| #[trigger] failure_message(label, e) == m@)
}

/// How a rewrite named `label` that leaves the loop to carry on can end,
/// `before` being the state it started from: it failed and says so, the
/// mode kept; it paused on a conflict; or the stash no longer applies and
/// its dialog is open.
pub open spec fn rewrite_continued(before: AppState, app: AppState, label: Seq<char>) -> bool {
    ||| reports_failure(app, label) && app.mode == before.mode
    ||| app.mode is RebaseConflict
    ||| (app.mode matches AppMode::StashConflict(st) && st.operation_label@ == label)
}

/// The requests of a history rewrite `op` with uncommitted work stashed
/// around it: the stash first; then, unless stashing failed, the rewrite;
/// then, unless the rewrite paused on a conflict (the stash then waits for
/// the operation to end), the stash re-applied.
pub open spec fn stashed_around(before: Seq<RepoCall>, after: Seq<RepoCall>, op: RepoCall) -> bool {
    ||| after == before.push(RepoCall::AutostashSave)
    ||| after == before.push(RepoCall::AutostashSave).push(op)
    ||| after == before.push(RepoCall::AutostashSave).push(op).push(RepoCall::AutostashRestore)
}

/// What a rewrite that stashed around itself reported, by the requests it
/// made: a failed stash is reported as the failure of `label`, the mode kept;
/// a rewrite not followed by the stash re-applied paused on a conflict.
pub open spec fn stash_reported(before: Seq<RepoCall>, after: Seq<RepoCall>, op: RepoCall, r: Result<LoopAction, String>,
    before_app: AppState, app: AppState, label: Seq<char>) -> bool {
    &&& after.len() == before.len() + 1 ==> r == Ok::<LoopAction, String>(LoopAction::Continue)
        && reports_failure(app, label) && app.mode == before_app.mode
    &&& after.len() == before.len() + 2 ==> r == Ok::<LoopAction, String>(LoopAction::Continue)
        && app.mode is RebaseConflict
}

/// Finish a history rewrite: a completed one re-applies the auto-stash and
/// reports `success_msg` (a stash that no longer applies opens the stash
/// conflict dialog); a paused one opens the conflict dialog, leaving the
/// stash for when the operation ends; a failed one reports the error and
/// re-applies the stash. An error re-applying the stash is returned.
pub fn finish_rewrite<R: GitRepo>(repo: &mut R, app: &mut AppState, outcome: Result<RebaseOutcome, String>, label: &str,
    success_msg: &str) -> (r: Result<LoopAction, String>)
    ensures
        final(app).commits == old(app).commits,
        final(app).selection_index == old(app).selection_index,
        final(app).pending_autofixup_selection == old(app).pending_autofixup_selection,
        outcome matches Ok(RebaseOutcome::Conflict(state)) ==> r == Ok::<LoopAction, String>(LoopAction::Continue)
            && final(app).mode == AppMode::RebaseConflict(state)
            && final(app).status_message == old(app).status_message,
        !(outcome matches Ok(RebaseOutcome::Conflict(_))) ==> final(app).mode == old(app).mode
            || final(app).mode is StashConflict,
        outcome matches Ok(RebaseOutcome::Complete) ==> match r {
            Ok(LoopAction::ReloadPreserving) => (final(app).status_message matches Some(m) && m@ == success_msg@)
                && !final(app).status_is_error && final(app).mode == old(app).mode,
            Ok(LoopAction::Continue) => final(app).mode matches AppMode::StashConflict(s) && s.operation_label@ == label@,
            Ok(_) => false,
            Err(_) => true,
        },
        outcome matches Err(e) ==> (r matches Err(_) || r == Ok::<LoopAction, String>(LoopAction::Continue))
            && (final(app).status_message matches Some(m) && m@ == failure_message(label@, e@))
            && final(app).status_is_error,
        r == Ok::<LoopAction, String>(LoopAction::ReloadPreserving) ==> reports_success(*final(app), success_msg@)
            && final(app).mode == old(app).mode,
        r == Ok::<LoopAction, String>(LoopAction::Continue) ==> rewrite_continued(*old(app), *final(app), label@),
        r is Err ==> final(app).mode == old(app).mode,
        outcome matches Ok(RebaseOutcome::Conflict(_)) ==> final(repo).calls()@ == old(repo).calls()@,
        !(outcome matches Ok(RebaseOutcome::Conflict(_))) ==> final(repo).calls()@
            == old(repo).calls()@.push(RepoCall::AutostashRestore),
{
    match outcome {
        Ok(RebaseOutcome::Conflict(state)) => {
            app.mode = AppMode::RebaseConflict(state);
            app.dialog.offset = 0;
            Ok(LoopAction::Continue)
        },
        Ok(RebaseOutcome::Complete) => {
            match repo.autostash_restore() {
                Ok(AutostashRestore::Done) => {
                    app.set_success_message(success_msg.to_owned());
                    Ok(LoopAction::ReloadPreserving)
                },
                Ok(AutostashRestore::Conflict { files }) => {
                    app.mode = AppMode::StashConflict(StashConflictState { operation_label: label.to_owned(), conflicting_files: files });
                    app.dialog.offset = 0;
                    Ok(LoopAction::Continue)
                },
                Err(e) => Err(e),
            }
        },
        Err(e) => {
            app.set_error_message(failure(label, &e));
            match repo.autostash_restore() {
                Ok(AutostashRestore::Done) => Ok(LoopAction::Continue),
                Ok(AutostashRestore::Conflict { files }) => {
                    app.mode = AppMode::StashConflict(StashConflictState { operation_label: label.to_owned(), conflicting_files: files });
                    app.dialog.offset = 0;
                    Ok(LoopAction::Continue)
                },
                Err(e2) => Err(e2),
            }
        },
    }
}

/// Drop `commit_oid` from the branch at `head_oid`, stashing uncommitted
/// changes around the rewrite.
pub fn handle_execute_drop<R: GitRepo>(repo: &mut R, app: &mut AppState, commit_oid: Oid, head_oid: Oid)
    -> (r: Result<LoopAction, String>)
    ensures
        final(app).commits == old(app).commits,
        final(app).selection_index == old(app).selection_index,
        r matches Ok(a) ==> a == LoopAction::ReloadPreserving || a == LoopAction::Continue,
        r == Ok::<LoopAction, String>(LoopAction::ReloadPreserving) ==> reports_success(*final(app), "Commit dropped"@)
            && final(app).mode == old(app).mode,
        r == Ok::<LoopAction, String>(LoopAction::Continue) ==> rewrite_continued(*old(app), *final(app), "Drop"@),
        r is Err ==> final(app).mode == old(app).mode,
        stashed_around(old(repo).calls()@, final(repo).calls()@, RepoCall::Drop { commit: commit_oid, head: head_oid }),
        stash_reported(old(repo).calls()@, final(repo).calls()@, RepoCall::Drop { commit: commit_oid, head: head_oid }, r,
            *old(app), *final(app), "Drop"@),
{
    if let Err(e) = repo.autostash_save() {
        app.set_error_message(failure("Drop", &e));
        assert(failure_message("Drop"@, e@) == app.status_message->0@);
        return Ok(LoopAction::Continue);
    }
    let outcome = repo.drop_commit(&commit_oid, &head_oid);
    finish_rewrite(repo, app, outcome, "Drop", "Commit dropped")
}

/// Move `source_oid` to just after `insert_after_oid` (to the bottom when
/// `None`), stashing uncommitted changes around the rewrite.
pub fn handle_execute_move<R: GitRepo>(repo: &mut R, app: &mut AppState, source_oid: Oid, insert_after_oid: Option<Oid>)
    -> (r: Result<LoopAction, String>)
    ensures
        final(app).commits == old(app).commits,
        final(app).selection_index == old(app).selection_index,
        r matches Ok(a) ==> a == LoopAction::ReloadPreserving || a == LoopAction::Continue,
        r == Ok::<LoopAction, String>(LoopAction::ReloadPreserving) ==> reports_success(*final(app), "Commit moved"@)
            && final(app).mode == old(app).mode,
        r == Ok::<LoopAction, String>(LoopAction::Continue) ==> rewrite_continued(*old(app), *final(app), "Move"@),
        r is Err ==> final(app).mode == old(app).mode,
        final(repo).calls()@.len() == old(repo).calls()@.len() ==> final(repo).calls()@ == old(repo).calls()@
            && r == Ok::<LoopAction, String>(LoopAction::Continue)
            && reports_failure(*final(app), "Move"@) && final(app).mode == old(app).mode,
        final(repo).calls()@.len() != old(repo).calls()@.len() ==> stashed_around(old(repo).calls()@, final(repo).calls()@,
            RepoCall::Move { commit: source_oid, insert_after: insert_after_oid, head: old(repo).head() }),
        stash_reported(old(repo).calls()@, final(repo).calls()@,
            RepoCall::Move { commit: source_oid, insert_after: insert_after_oid, head: old(repo).head() }, r,
            *old(app), *final(app), "Move"@),
{
    let head = match repo.head_oid() {
        Ok(h) => h,
        Err(e) => {
            app.set_error_message(failure("Move", &e));
            assert(failure_message("Move"@, e@) == app.status_message->0@);
            return Ok(LoopAction::Continue);
        },
    };
    if let Err(e) = repo.autostash_save() {
        app.set_error_message(failure("Move", &e));
        assert(failure_message("Move"@, e@) == app.status_message->0@);
        return Ok(LoopAction::Continue);
    }
    let outcome = match &insert_after_oid {
        Some(o) => repo.move_commit(&source_oid, Some(o), &head),
        None => repo.move_commit(&source_oid, None, &head),
    };
    finish_rewrite(repo, app, outcome, "Move", "Commit moved")
}

/// The error text for an abort that failed with `e`.
pub open spec fn abort_failure(e: Seq<char>) -> Seq<char> {
    "Abort failed: "@ + e
}

/// Reports an abort of the paused operation named `label`: a reload on
/// success, an error message otherwise.
pub fn report_abort(app: &mut AppState, outcome: Result<(), String>, label: &String) -> (r: LoopAction)
    ensures
        final(app).mode == old(app).mode,
        final(app).commits == old(app).commits,
        final(app).selection_index == old(app).selection_index,
        outcome is Ok ==> r == LoopAction::Reload && !final(app).status_is_error
            && (final(app).status_message matches Some(m) && m@ == label@ + " aborted"@),
        outcome matches Err(e) ==> r == LoopAction::Continue && final(app).status_is_error
            && (final(app).status_message matches Some(m) && m@ == abort_failure(e@)),
{
    match outcome {
        Ok(()) => {
            app.set_success_message(joined(label.as_str(), " aborted"));
            LoopAction::Reload
        },
        Err(e) => {
            app.set_error_message(joined("Abort failed: ", e.as_str()));
            LoopAction::Continue
        },
    }
}

/// Abandon the paused operation and report how that went.
pub fn handle_rebase_abort<R: GitRepo>(repo: &mut R, app: &mut AppState, state: ConflictState)
    -> (r: Result<LoopAction, String>)
    ensures
        final(app).mode == old(app).mode,
        final(app).commits == old(app).commits,
        r matches Ok(a) ==> a == LoopAction::Reload || a == LoopAction::Continue,
        final(app).status_message is Some,
        r is Ok,
        final(repo).calls()@ == old(repo).calls()@.push(RepoCall::RebaseAbort(state)),
        r == Ok::<LoopAction, String>(LoopAction::Reload) ==> reports_success(*final(app),
            state.operation_label@ + " aborted"@),
        r == Ok::<LoopAction, String>(LoopAction::Continue) ==> final(app).status_is_error
            && (final(app).status_message matches Some(m) && exists|e: Seq<char>| #[trigger] abort_failure(e) == m@),
{
    let outcome = repo.rebase_abort(&state);
    Ok(report_abort(app, outcome, &state.operation_label))
}

/// Run an autofixup batch. The row to select afterwards is computed up
/// front, before the batch rewrites the list: a completed batch reloads
/// selecting it; a batch paused on a conflict keeps it for the round that
/// completes it.
pub fn handle_execute_autofixup<R: GitRepo>(repo: &mut R, app: &mut AppState, head_oid: Oid, reference_oid: Oid,
    pairs: Vec<AutofixupPair>, message_overrides: Vec<(String, String)>) -> (r: Result<LoopAction, String>)
    ensures
        final(app).commits == old(app).commits,
        final(app).selection_index == old(app).selection_index,
        r matches Ok(LoopAction::ReloadSelecting(i)) ==> selection_after_batch(
            old(app).commits@, old(app).selection_index, pairs@, Some(i)),
        r matches Ok(a) ==> a is ReloadSelecting || a is ReloadPreserving || a == LoopAction::Continue,
        final(app).mode is RebaseConflict && !(old(app).mode is RebaseConflict) ==> selection_after_batch(
            old(app).commits@, old(app).selection_index, pairs@, final(app).pending_autofixup_selection),
        r matches Ok(a) && (a is ReloadSelecting || a is ReloadPreserving) ==> reports_success(*final(app),
            "Commits autofixed up"@) && final(app).mode == old(app).mode,
        r == Ok::<LoopAction, String>(LoopAction::Continue) ==> rewrite_continued(*old(app), *final(app), "Autofixup"@),
        r is Err ==> final(app).mode == old(app).mode,
        stashed_around(old(repo).calls()@, final(repo).calls()@,
            RepoCall::Autofixup { head: head_oid, reference: reference_oid, message_overrides }),
        stash_reported(old(repo).calls()@, final(repo).calls()@,
            RepoCall::Autofixup { head: head_oid, reference: reference_oid, message_overrides }, r,
            *old(app), *final(app), "Autofixup"@),
{
    let target = autofixup_target_selection_index(&app.commits, app.selection_index, &pairs);
    if let Err(e) = repo.autostash_save() {
        app.set_error_message(failure("Autofixup", &e));
        assert(failure_message("Autofixup"@, e@) == app.status_message->0@);
        return Ok(LoopAction::Continue);
    }
    let outcome = repo.autofixup(&head_oid, &reference_oid, &message_overrides);
    let is_conflict = match &outcome {
        Ok(RebaseOutcome::Conflict(_)) => true,
        _ => false,
    };
    if is_conflict {
        app.pending_autofixup_selection = target;
    }
    let r = finish_rewrite(repo, app, outcome, "Autofixup", "Commits autofixed up");
    match r {
        Ok(LoopAction::ReloadPreserving) => match target {
            Some(i) => Ok(LoopAction::ReloadSelecting(i)),
            None => Ok(LoopAction::ReloadPreserving),
        },
        other => other,
    }
}

/// Reports a stage-all or unstage-all outcome: a success message and a
/// reload when something changed, `noop_msg` otherwise, and the error as an
/// error message.
pub fn report_stage_outcome(app: &mut AppState, outcome: Result<StageOutcome, String>, changed_msg: &str, noop_msg: &str)
    -> (r: LoopAction)
    ensures
        final(app).mode == old(app).mode,
        final(app).commits == old(app).commits,
        final(app).selection_index == old(app).selection_index,
        outcome == Ok::<StageOutcome, String>(StageOutcome::Changed) ==> r == LoopAction::Reload
            && (final(app).status_message matches Some(m) && m@ == changed_msg@) && !final(app).status_is_error,
        outcome == Ok::<StageOutcome, String>(StageOutcome::NoOp) ==> r == LoopAction::Proceed
            && (final(app).status_message matches Some(m) && m@ == noop_msg@) && !final(app).status_is_error,
        outcome matches Err(e) ==> r == LoopAction::Proceed
            && final(app).status_message == Some(e) && final(app).status_is_error,
{
    match outcome {
        Ok(StageOutcome::Changed) => {
            app.set_success_message(changed_msg.to_owned());
            LoopAction::Reload
        },
        Ok(StageOutcome::NoOp) => {
            app.set_success_message(noop_msg.to_owned());
            LoopAction::Proceed
        },
        Err(e) => {
            app.set_error_message(e);
            LoopAction::Proceed
        },
    }
}

/// `s` with its first character lowered when it is an ASCII capital.
pub open spec fn lower_first(s: Seq<char>) -> Seq<char> {
    if s.len() > 0 && 'A' <= s[0] <= 'Z' {
        seq![((s[0] as u32) + 32) as char] + s.drop_first()
    } else {
        s
    }
}

fn push_lower_first(out: &mut String, s: &String)
    ensures
        final(out)@ == old(out)@ + lower_first(s@),
{
    let t = s.as_str();
    let n = t.unicode_len();
    if n == 0 {
        assert(old(out)@ + lower_first(s@) =~= old(out)@);
        return;
    }
    let c = t.get_char(0);
    if 'A' <= c && c <= 'Z' {
        let lower = ((c as u8) + 32) as char;
        push_char(out, lower);
    } else {
        push_char(out, c);
    }
    let rest = t.substring_char(1, n);
    out.append(rest);
    assert(s@.drop_first() =~= s@.subrange(1, n as int));
    assert(out@ =~= old(out)@ + lower_first(s@));
}

/// The status text for an undo or redo of the operation named `label`.
pub open spec fn undone_message(redo: bool, label: Seq<char>) -> Seq<char> {
    (if redo { "Redid "@ } else { "Undid "@ }) + lower_first(label)
}

/// The error text for an undo (or, with `redo`, a redo) that failed with `e`.
pub open spec fn undo_failure_message(redo: bool, e: Seq<char>) -> Seq<char> {
    (if redo { "Redo failed: "@ } else { "Undo failed: "@ }) + e
}

/// Whether `m` is one of the texts an undo (or, with `redo`, a redo) is
/// reported with: the operation reverted, nothing to revert, history
/// changed elsewhere, or the failure.
pub open spec fn undo_reported(redo: bool, m: Seq<char>) -> bool {
    ||| exists|label: Seq<char>| #[trigger] undone_message(redo, label) == m
    ||| m == (if redo { "Nothing to redo"@ } else { "Nothing to undo"@ })
    ||| m == "History was changed outside git-tailor; undo history cleared"@
    ||| exists|e: Seq<char>| #[trigger] undo_failure_message(redo, e) == m
}

/// Whether `app` shows, as an error, the failure of an undo (or, with
/// `redo`, a redo).
pub open spec fn reports_undo_failure(app: AppState, redo: bool) -> bool {
    app.status_is_error && (app.status_message matches Some(m)
        && exists|e: Seq<char>| #[trigger] undo_failure_message(redo, e) == m@)
}

/// The requests of an undo (or, with `redo`, a redo): none when asking
/// whether the step keeps the working tree failed; the step alone when it
/// does (`keeps`); otherwise the stash first and, unless stashing failed,
/// the step and then the stash re-applied.
pub open spec fn undo_requests(before: Seq<RepoCall>, after: Seq<RepoCall>, redo: bool, keeps: bool) -> bool {
    let op = if redo { RepoCall::Redo } else { RepoCall::Undo };
    ||| after == before
    ||| keeps && after == before.push(op)
    ||| !keeps && after == before.push(RepoCall::AutostashSave)
    ||| !keeps && after == before.push(RepoCall::AutostashSave).push(op).push(RepoCall::AutostashRestore)
}

/// The label of the stash conflict dialog opened by an undo or a redo.
pub open spec fn undo_label(redo: bool) -> Seq<char> {
    if redo { "Redo"@ } else { "Undo"@ }
}

/// What an undo or redo answered, reported: the operation named on
/// success (and a reload), a note when there was nothing to revert, an
/// error when history had been changed elsewhere (the history is gone, so
/// reload) or when the step failed.
pub fn report_undo(app: &mut AppState, outcome: Result<UndoOutcome, String>, redo: bool) -> (r: LoopAction)
    ensures
        final(app).mode == old(app).mode,
        final(app).commits == old(app).commits,
        final(app).selection_index == old(app).selection_index,
        outcome matches Ok(UndoOutcome::Done { label }) ==> r == LoopAction::Reload
            && (final(app).status_message matches Some(m) && m@ == undone_message(redo, label@))
            && !final(app).status_is_error,
        outcome matches Ok(UndoOutcome::Empty) ==> r == LoopAction::Continue
            && (final(app).status_message matches Some(m)
                && m@ == (if redo { "Nothing to redo"@ } else { "Nothing to undo"@ }))
            && !final(app).status_is_error,
        outcome matches Ok(UndoOutcome::Stale) ==> r == LoopAction::Reload
            && (final(app).status_message matches Some(m)
                && m@ == "History was changed outside git-tailor; undo history cleared"@)
            && final(app).status_is_error,
        outcome matches Err(e) ==> r == LoopAction::Continue
            && (final(app).status_message matches Some(m)
                && m@ == undo_failure_message(redo, e@))
            && final(app).status_is_error,
        final(app).status_message matches Some(m) && undo_reported(redo, m@),
{
    match outcome {
        Ok(UndoOutcome::Done { label }) => {
            let mut m = if redo { String::from_str("Redid ") } else { String::from_str("Undid ") };
            push_lower_first(&mut m, &label);
            proof {
                reveal_strlit("Redid ");
                reveal_strlit("Undid ");
            }
            assert(undone_message(redo, label@) == m@);
            app.set_success_message(m);
            LoopAction::Reload
        },
        Ok(UndoOutcome::Empty) => {
            let m = if redo { String::from_str("Nothing to redo") } else { String::from_str("Nothing to undo") };
            app.set_success_message(m);
            LoopAction::Continue
        },
        Ok(UndoOutcome::Stale) => {
            app.set_error_message(String::from_str("History was changed outside git-tailor; undo history cleared"));
            LoopAction::Reload
        },
        Err(e) => {
            let mut m = if redo { String::from_str("Redo failed: ") } else { String::from_str("Undo failed: ") };
            m.append(e.as_str());
            assert(undo_failure_message(redo, e@) == m@);
            app.set_error_message(m);
            LoopAction::Continue
        },
    }
}

/// Undo (or redo) the last operation. Unless the step keeps the working
/// tree as it is, uncommitted changes are stashed around it; a stash that
/// no longer applies opens the stash conflict dialog. An error re-applying
/// the stash is returned, as the working tree is then in an unknown state.
pub fn handle_undo_or_redo<R: GitRepo>(repo: &mut R, app: &mut AppState, redo: bool) -> (r: Result<LoopAction, String>)
    ensures
        final(app).commits == old(app).commits,
        final(app).selection_index == old(app).selection_index,
        r matches Ok(a) ==> a == LoopAction::Reload || a == LoopAction::Continue,
        r matches Ok(a) ==> final(app).status_message is Some,
        r matches Ok(a) && !(final(app).mode is StashConflict) ==> final(app).mode == old(app).mode,
        final(app).status_message matches Some(m) && undo_reported(redo, m@),
        final(app).mode == old(app).mode || (final(app).mode matches AppMode::StashConflict(st)
            && st.operation_label@ == undo_label(redo)),
        final(app).mode != old(app).mode ==> r == Ok::<LoopAction, String>(LoopAction::Continue),
        r is Err ==> final(app).mode == old(app).mode,
        undo_requests(old(repo).calls()@, final(repo).calls()@, redo,
            if redo { old(repo).redo_keeps_worktree() } else { old(repo).undo_keeps_worktree() }),
        final(repo).calls()@.len() == old(repo).calls()@.len() || (final(repo).calls()@.len() == old(repo).calls()@.len() + 1
            && !(if redo { old(repo).redo_keeps_worktree() } else { old(repo).undo_keeps_worktree() }))
            ==> r == Ok::<LoopAction, String>(LoopAction::Continue) && reports_undo_failure(*final(app), redo),
{
    let skips = if redo { repo.pending_redo_skips_autostash() } else { repo.pending_undo_skips_autostash() };
    let skip_autostash = match skips {
        Ok(b) => b,
        Err(e) => return Ok(report_undo(app, Err(e), redo)),
    };
    if !skip_autostash {
        if let Err(e) = repo.autostash_save() {
            return Ok(report_undo(app, Err(e), redo));
        }
    }
    let outcome = if redo { repo.redo() } else { repo.undo() };
    let action = report_undo(app, outcome, redo);
    if !skip_autostash {
        match repo.autostash_restore() {
            Ok(AutostashRestore::Done) => {},
            Ok(AutostashRestore::Conflict { files }) => {
                let label = if redo { String::from_str("Redo") } else { String::from_str("Undo") };
                app.mode = AppMode::StashConflict(StashConflictState { operation_label: label, conflicting_files: files });
                app.dialog.offset = 0;
                return Ok(LoopAction::Continue);
            },
            Err(e) => return Err(e),
        }
    }
    Ok(action)
}

/// Undo the last operation (see [`handle_undo_or_redo`]).
pub fn handle_undo<R: GitRepo>(repo: &mut R, app: &mut AppState) -> (r: Result<LoopAction, String>)
    ensures
        final(app).commits == old(app).commits,
        final(app).selection_index == old(app).selection_index,
        r matches Ok(a) ==> a == LoopAction::Reload || a == LoopAction::Continue,
        r matches Ok(a) ==> final(app).status_message is Some,
        r matches Ok(a) && !(final(app).mode is StashConflict) ==> final(app).mode == old(app).mode,
        final(app).status_message matches Some(m) && undo_reported(false, m@),
        final(app).mode == old(app).mode || (final(app).mode matches AppMode::StashConflict(st)
            && st.operation_label@ == undo_label(false)),
        final(app).mode != old(app).mode ==> r == Ok::<LoopAction, String>(LoopAction::Continue),
        r is Err ==> final(app).mode == old(app).mode,
        undo_requests(old(repo).calls()@, final(repo).calls()@, false, old(repo).undo_keeps_worktree()),
        final(repo).calls()@.len() == old(repo).calls()@.len() || (final(repo).calls()@.len() == old(repo).calls()@.len() + 1
            && !old(repo).undo_keeps_worktree())
            ==> r == Ok::<LoopAction, String>(LoopAction::Continue) && reports_undo_failure(*final(app), false),
{
    handle_undo_or_redo(repo, app, false)
}

/// Redo the last undone operation (see [`handle_undo_or_redo`]).
pub fn handle_redo<R: GitRepo>(repo: &mut R, app: &mut AppState) -> (r: Result<LoopAction, String>)
    ensures
        final(app).commits == old(app).commits,
        final(app).selection_index == old(app).selection_index,
        r matches Ok(a) ==> a == LoopAction::Reload || a == LoopAction::Continue,
        r matches Ok(a) ==> final(app).status_message is Some,
        r matches Ok(a) && !(final(app).mode is StashConflict) ==> final(app).mode == old(app).mode,
        final(app).status_message matches Some(m) && undo_reported(true, m@),
        final(app).mode == old(app).mode || (final(app).mode matches AppMode::StashConflict(st)
            && st.operation_label@ == undo_label(true)),
        final(app).mode != old(app).mode ==> r == Ok::<LoopAction, String>(LoopAction::Continue),
        r is Err ==> final(app).mode == old(app).mode,
        undo_requests(old(repo).calls()@, final(repo).calls()@, true, old(repo).redo_keeps_worktree()),
        final(repo).calls()@.len() == old(repo).calls()@.len() || (final(repo).calls()@.len() == old(repo).calls()@.len() + 1
            && !old(repo).redo_keeps_worktree())
            ==> r == Ok::<LoopAction, String>(LoopAction::Continue) && reports_undo_failure(*final(app), true),
{
    handle_undo_or_redo(repo, app, true)
}

/// Route the selection computed before an autofixup batch into the reload
/// that completes it. For an autofixup operation: the completing reload
/// (`ReloadPreserving`) becomes a reload selecting the stashed row, which is
/// consumed; another conflict round (`Continue`) keeps it for the next
/// round; any other ending abandons the batch and drops it. Other
/// operations leave both untouched.
pub fn apply_pending_autofixup_selection(app: &mut AppState, is_autofixup: bool, action: LoopAction) -> (r: LoopAction)
    ensures
        final(app).mode == old(app).mode,
        final(app).commits == old(app).commits,
        final(app).selection_index == old(app).selection_index,
        final(app).status_message == old(app).status_message,
        !is_autofixup ==> r == action && final(app).pending_autofixup_selection == old(app).pending_autofixup_selection,
        is_autofixup && action == LoopAction::Continue ==> r == action
            && final(app).pending_autofixup_selection == old(app).pending_autofixup_selection,
        is_autofixup && action == LoopAction::ReloadPreserving ==> final(app).pending_autofixup_selection is None
            && r == (match old(app).pending_autofixup_selection {
                Some(i) => LoopAction::ReloadSelecting(i),
                None => LoopAction::ReloadPreserving,
            }),
        is_autofixup && action != LoopAction::Continue && action != LoopAction::ReloadPreserving ==> r == action
            && final(app).pending_autofixup_selection is None,
{
    if !is_autofixup {
        return action;
    }
    match action {
        LoopAction::Continue => action,
        LoopAction::ReloadPreserving => match app.pending_autofixup_selection.take() {
            Some(i) => LoopAction::ReloadSelecting(i),
            None => LoopAction::ReloadPreserving,
        },
        _ => {
            app.pending_autofixup_selection = None;
            action
        },
    }
}

} // verus!
