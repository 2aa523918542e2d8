//! Startup crash-recovery prompt for an operation a previous run was killed
//! in — key handling.

use vstd::prelude::*;
use crate::app::{AppAction, AppMode, AppState, KeyCommand};
use crate::views::dialog::{dialog_scrolled, handle_dialog_scroll};

verus! {

/// Handle an action while in RecoverConfirm mode.
pub fn handle_recover_key(action: KeyCommand, app: &mut AppState) -> (r: AppAction)
    ensures
        final(app).commits == old(app).commits,
        action == KeyCommand::Confirm ==> r is Handled && match old(app).mode {
            AppMode::RecoverConfirm(s) => final(app).mode == AppMode::RebaseConflict(s),
            _ => final(app).mode is CommitList,
        },
        action == KeyCommand::Quit ==> final(app).mode is CommitList && match old(app).mode {
            AppMode::RecoverConfirm(s) => r == AppAction::RebaseAbort(*s),
            _ => r is Handled,
        },
        action == KeyCommand::ShowHelp && !(old(app).mode is Help) ==> r is Handled
            && final(app).mode == AppMode::Help(Box::new(old(app).mode)),
        !(action == KeyCommand::Confirm || action == KeyCommand::ShowHelp || action == KeyCommand::Quit) ==>
            r is Handled && final(app).mode == old(app).mode
            && final(app).dialog.offset == dialog_scrolled(action, old(app).dialog),
{
    match action {
        KeyCommand::Confirm => {
            // Resume: hand the persisted state to the normal conflict flow, where
            // Enter=continue / Esc=abort already work.
            if let AppMode::RecoverConfirm(state) = app.take_mode() {
                app.enter_rebase_conflict(*state);
            }
            AppAction::Handled
        },
        KeyCommand::Quit => {
            if let AppMode::RecoverConfirm(state) = app.take_mode() {
                AppAction::RebaseAbort(*state)
            } else {
                AppAction::Handled
            }
        },
        KeyCommand::ShowHelp => {
            app.toggle_help();
            AppAction::Handled
        },
        _ => {
            handle_dialog_scroll(action, app);
            AppAction::Handled
        },
    }
}

} // verus!
