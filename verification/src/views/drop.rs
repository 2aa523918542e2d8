//! Drop commit confirmation dialog — key handling.

use vstd::prelude::*;
use crate::app::{AppAction, AppMode, AppState, KeyCommand};
use crate::views::dialog::{dialog_scrolled, handle_dialog_scroll};

verus! {

/// Handle an action while in DropConfirm mode.
pub fn handle_confirm_key(action: KeyCommand, app: &mut AppState) -> (r: AppAction)
    ensures
        final(app).commits == old(app).commits,
        action == KeyCommand::Confirm ==> final(app).mode is CommitList && match old(app).mode {
            AppMode::DropConfirm(p) => r matches AppAction::ExecuteDrop { commit_oid, head_oid }
                && commit_oid == p.commit_oid && head_oid == p.head_oid,
            _ => r is Handled,
        },
        action == KeyCommand::ShowHelp && !(old(app).mode is Help) ==> r is Handled
            && final(app).mode == AppMode::Help(Box::new(old(app).mode)),
        action == KeyCommand::Quit ==> r is Handled && final(app).mode is CommitList,
        !(action == KeyCommand::Confirm || action == KeyCommand::ShowHelp || action == KeyCommand::Quit) ==>
            r is Handled && final(app).mode == old(app).mode
            && final(app).dialog.offset == dialog_scrolled(action, old(app).dialog),
{
    match action {
        KeyCommand::Confirm => {
            if let AppMode::DropConfirm(pending) = app.take_mode() {
                AppAction::ExecuteDrop { commit_oid: pending.commit_oid, head_oid: pending.head_oid }
            } else {
                AppAction::Handled
            }
        },
        KeyCommand::ShowHelp => {
            app.toggle_help();
            AppAction::Handled
        },
        KeyCommand::Quit => {
            app.close_dialog();
            AppAction::Handled
        },
        _ => {
            handle_dialog_scroll(action, app);
            AppAction::Handled
        },
    }
}

} // verus!
