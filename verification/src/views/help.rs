//! Help dialog showing keybindings — key handling.

use vstd::prelude::*;
use crate::app::{AppAction, AppMode, AppState, KeyCommand};
use crate::views::dialog::{dialog_scrolled, handle_dialog_scroll};

verus! {

/// Handle an action while in Help mode: Esc/q or `h` close the overlay,
/// anything else scrolls it.
pub fn handle_key(action: KeyCommand, app: &mut AppState) -> (r: AppAction)
    ensures
        r is Handled,
        final(app).commits == old(app).commits,
        (action == KeyCommand::Quit || action == KeyCommand::ShowHelp) ==> match old(app).mode {
            AppMode::Help(prev) => final(app).mode == *prev,
            _ => final(app).mode == AppMode::Help(Box::new(old(app).mode)),
        },
        !(action == KeyCommand::Quit || action == KeyCommand::ShowHelp) ==> final(app).mode == old(app).mode
            && final(app).dialog.offset == dialog_scrolled(action, old(app).dialog),
{
    match action {
        KeyCommand::Quit | KeyCommand::ShowHelp => {
            app.toggle_help();
            AppAction::Handled
        },
        _ => {
            handle_dialog_scroll(action, app);
            AppAction::Handled
        },
    }
}

} // verus!
