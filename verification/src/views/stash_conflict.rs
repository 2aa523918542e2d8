//! Resolution dialog for conflicts left by reapplying the auto-stash after an
//! operation completed — key handling. It mirrors the rebase-conflict
//! dialog, but "continue" drops the stash instead of resuming a cherry-pick.

use vstd::prelude::*;
use crate::app::{AppAction, AppMode, AppState, KeyCommand};
use crate::views::dialog::{dialog_scrolled, handle_dialog_scroll};

verus! {

/// Handle an action while in StashConflict mode.
pub fn handle_stash_conflict_key(action: KeyCommand, app: &mut AppState) -> (r: AppAction)
    ensures
        final(app).commits == old(app).commits,
        action == KeyCommand::Confirm || action == KeyCommand::Quit || action == KeyCommand::Mergetool
            || action == KeyCommand::OpenEditor ==> *final(app) == *old(app),
        action != KeyCommand::ShowHelp ==> *final(app) == (AppState { dialog: final(app).dialog, ..*old(app) }),
        action == KeyCommand::Confirm ==> r is AutostashContinue && final(app).mode == old(app).mode,
        action == KeyCommand::Quit ==> r is AutostashAbort && final(app).mode == old(app).mode,
        action == KeyCommand::Mergetool ==> final(app).mode == old(app).mode && match old(app).mode {
            AppMode::StashConflict(s) => r matches AppAction::RunMergetoolForStash { files }
                && files@ == s.conflicting_files@,
            _ => r is Handled,
        },
        action == KeyCommand::OpenEditor ==> final(app).mode == old(app).mode && match old(app).mode {
            AppMode::StashConflict(s) => r matches AppAction::RunEditorForStash { files }
                && files@ == s.conflicting_files@,
            _ => r is Handled,
        },
        action == KeyCommand::ShowHelp && !(old(app).mode is Help) ==> r is Handled
            && final(app).mode == AppMode::Help(Box::new(old(app).mode)),
        !(action == KeyCommand::Confirm || action == KeyCommand::Quit || action == KeyCommand::Mergetool
            || action == KeyCommand::OpenEditor || action == KeyCommand::ShowHelp) ==>
            r is Handled && final(app).mode == old(app).mode
            && final(app).dialog.offset == dialog_scrolled(action, old(app).dialog),
{
    match action {
        KeyCommand::Confirm => AppAction::AutostashContinue,
        KeyCommand::Mergetool => match &app.mode {
            AppMode::StashConflict(state) => AppAction::RunMergetoolForStash {
                files: crate::oid::duplicate_strings(&state.conflicting_files),
            },
            _ => AppAction::Handled,
        },
        KeyCommand::OpenEditor => match &app.mode {
            AppMode::StashConflict(state) => AppAction::RunEditorForStash {
                files: crate::oid::duplicate_strings(&state.conflicting_files),
            },
            _ => AppAction::Handled,
        },
        KeyCommand::ShowHelp => {
            app.toggle_help();
            AppAction::Handled
        },
        KeyCommand::Quit => AppAction::AutostashAbort,
        _ => {
            handle_dialog_scroll(action, app);
            AppAction::Handled
        },
    }
}

} // verus!
