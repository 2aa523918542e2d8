//! Rebase conflict resolution dialog, shared by drop/squash/etc. — key
//! handling.

use vstd::prelude::*;
use crate::app::{same_conflict, AppAction, AppMode, AppState, KeyCommand};
use crate::views::dialog::{dialog_scrolled, handle_dialog_scroll};
use crate::oid::{CommitInfo, Oid, VirtualOid};
use crate::text::{decimal, push_decimal};

verus! {

/// Handle an action while in RebaseConflict mode.
pub fn handle_conflict_key(action: KeyCommand, app: &mut AppState) -> (r: AppAction)
    ensures
        final(app).commits == old(app).commits,
        action == KeyCommand::Confirm ==> final(app).mode is CommitList && match old(app).mode {
            AppMode::RebaseConflict(s) => r == AppAction::RebaseContinue(*s),
            _ => r is Handled,
        },
        action == KeyCommand::Quit ==> final(app).mode is CommitList && match old(app).mode {
            AppMode::RebaseConflict(s) => r == AppAction::RebaseAbort(*s),
            _ => r is Handled,
        },
        action == KeyCommand::Mergetool ==> final(app).mode == old(app).mode && match old(app).mode {
            AppMode::RebaseConflict(s) => r matches AppAction::RunMergetool { files, conflict_state }
                && files@ == s.conflicting_files@ && same_conflict(conflict_state, *s),
            _ => r is Handled,
        },
        action == KeyCommand::OpenEditor ==> final(app).mode == old(app).mode && match old(app).mode {
            AppMode::RebaseConflict(s) => r matches AppAction::RunEditor { files, conflict_state }
                && files@ == s.conflicting_files@ && same_conflict(conflict_state, *s),
            _ => r is Handled,
        },
        action == KeyCommand::ShowHelp && !(old(app).mode is Help) ==> r is Handled
            && final(app).mode == AppMode::Help(Box::new(old(app).mode)),
        !(action == KeyCommand::Confirm || action == KeyCommand::Quit || action == KeyCommand::Mergetool
            || action == KeyCommand::OpenEditor || action == KeyCommand::ShowHelp) ==>
            r is Handled && final(app).mode == old(app).mode
            && final(app).dialog.offset == dialog_scrolled(action, old(app).dialog),
{
    match action {
        KeyCommand::Confirm => {
            if let AppMode::RebaseConflict(state) = app.take_mode() {
                AppAction::RebaseContinue(*state)
            } else {
                AppAction::Handled
            }
        },
        KeyCommand::Mergetool => {
            if let AppMode::RebaseConflict(state) = &app.mode {
                AppAction::RunMergetool {
                    files: crate::oid::duplicate_strings(&state.conflicting_files),
                    conflict_state: state.duplicate(),
                }
            } else {
                AppAction::Handled
            }
        },
        KeyCommand::OpenEditor => {
            if let AppMode::RebaseConflict(state) = &app.mode {
                AppAction::RunEditor {
                    files: crate::oid::duplicate_strings(&state.conflicting_files),
                    conflict_state: state.duplicate(),
                }
            } else {
                AppAction::Handled
            }
        },
        KeyCommand::ShowHelp => {
            app.toggle_help();
            AppAction::Handled
        },
        KeyCommand::Quit => {
            if let AppMode::RebaseConflict(state) = app.take_mode() {
                AppAction::RebaseAbort(*state)
            } else {
                AppAction::Handled
            }
        },
        _ => {
            handle_dialog_scroll(action, app);
            AppAction::Handled
        },
    }
}

/// The title of the first listed commit with id `oid`, or nothing.
pub open spec fn summary_of(commits: Seq<CommitInfo>, oid: Seq<char>) -> Seq<char>
    decreases commits.len(),
{
    if commits.len() == 0 {
        Seq::empty()
    } else if commits[0].oid matches VirtualOid::Real(o) && o@ == oid {
        commits[0].summary@
    } else {
        summary_of(commits.drop_first(), oid)
    }
}

/// The title of the conflicting commit, looked up in the loaded list so the
/// user sees which commit conflicts; empty when it is not listed.
pub fn conflict_commit_summary(commits: &Vec<CommitInfo>, oid: &Oid) -> (s: String)
    ensures
        s@ == summary_of(commits@, oid@),
{
    let mut i: usize = 0;
    assert(commits@.skip(0) =~= commits@);
    while i < commits.len()
        invariant
            i <= commits@.len(),
            summary_of(commits@, oid@) == summary_of(commits@.skip(i as int), oid@),
        decreases commits@.len() - i,
    {
        assert(commits@.skip(i as int).drop_first() =~= commits@.skip(i + 1));
        assert(commits@.skip(i as int)[0] == commits@[i as int]);
        if let VirtualOid::Real(o) = &commits[i].oid {
            if o.same(oid) {
                return commits[i].summary.clone();
            }
        }
        i = i + 1;
    }
    String::new()
}

/// Which note explains where the conflict came from.
#[derive(Clone, Copy, Debug, PartialEq, Eq, Structural)]
pub enum ConflictNote {
    /// A move: the moved commit itself conflicted.
    MovedCommit,
    /// A move: a commit rebased on top of the moved one conflicted.
    RebasedOnMoved,
    /// A squash: the squash itself conflicted.
    SquashItself,
    /// A squash: a commit rebased after the squash conflicted.
    AfterSquash,
}

/// The note for a conflict at `conflicting`: for a move (`moved` names the
/// moved commit), whether the moved commit itself conflicted; for a squash,
/// whether the squash's own tree did; none otherwise.
pub open spec fn note_for(conflicting: Seq<char>, moved: Option<Seq<char>>, label: Seq<char>,
    squash_tree_conflict: bool) -> Option<ConflictNote> {
    match moved {
        Some(m) => Some(if conflicting == m { ConflictNote::MovedCommit } else { ConflictNote::RebasedOnMoved }),
        None => if label == "Squash"@ {
            Some(if squash_tree_conflict { ConflictNote::SquashItself } else { ConflictNote::AfterSquash })
        } else {
            None
        },
    }
}

/// The note the conflict dialog shows about where the conflict came from.
pub fn conflict_note(conflicting: &Oid, moved: Option<&Oid>, label: &str, squash_tree_conflict: bool)
    -> (n: Option<ConflictNote>)
    ensures
        n == note_for(conflicting@, match moved { Some(m) => Some(m@), None => None }, label@, squash_tree_conflict),
{
    match moved {
        Some(m) => Some(if conflicting.same(m) { ConflictNote::MovedCommit } else { ConflictNote::RebasedOnMoved }),
        None => {
            let squash = String::from_str("Squash");
            if label.to_owned() == squash {
                Some(if squash_tree_conflict { ConflictNote::SquashItself } else { ConflictNote::AfterSquash })
            } else {
                None
            }
        },
    }
}

/// The text of a note.
pub fn note_text(n: ConflictNote) -> (s: &'static str)
    ensures
        s@ == (match n {
            ConflictNote::MovedCommit => " The moved commit itself caused the conflict."@,
            ConflictNote::RebasedOnMoved => " A commit being rebased on top of the moved commit conflicted."@,
            ConflictNote::SquashItself => " The squash itself caused the conflict."@,
            ConflictNote::AfterSquash => " A commit being rebased after the squash conflicted."@,
        }),
{
    match n {
        ConflictNote::MovedCommit => " The moved commit itself caused the conflict.",
        ConflictNote::RebasedOnMoved => " A commit being rebased on top of the moved commit conflicted.",
        ConflictNote::SquashItself => " The squash itself caused the conflict.",
        ConflictNote::AfterSquash => " A commit being rebased after the squash conflicted.",
    }
}

/// The line counting the commits still to rebase, shown when there are any.
pub fn remaining_note(remaining: usize) -> (s: Option<String>)
    ensures
        remaining == 0 ==> s is None,
        remaining > 0 ==> (s matches Some(t)
            && t@ == " ("@ + decimal(remaining as nat) + " commit(s) still to rebase after this)"@),
{
    if remaining == 0 {
        return None;
    }
    let mut t = String::from_str(" (");
    push_decimal(&mut t, remaining);
    t.append(" commit(s) still to rebase after this)");
    Some(t)
}

/// The dialog's title: the operation's label, then "Conflict".
pub fn conflict_title(label: &str) -> (s: String)
    ensures
        s@ == label@ + " Conflict"@,
{
    let mut s = label.to_owned();
    s.append(" Conflict");
    s
}

} // verus!
