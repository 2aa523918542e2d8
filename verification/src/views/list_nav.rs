//! Shared navigation helper for linear-list picker dialogs (squash, split, …).

use vstd::prelude::*;
use crate::app::KeyCommand;
use crate::scroll::{page_rows, page_size};

verus! {

/// Result of a single key event in a list-picker dialog.
#[derive(Clone, Copy, Debug, PartialEq, Eq, Structural)]
pub enum ListNav {
    /// The cursor was moved; the caller should update any dependent state.
    Moved,
    /// The user confirmed the current selection (Enter).
    Confirmed,
    /// The user cancelled the dialog (Esc / q).
    Cancelled,
    /// The user requested the help overlay.
    Help,
    /// The key is not handled by list navigation.
    Unhandled,
}

/// The cursor `step` rows up.
pub open spec fn up_by(cursor: nat, step: nat) -> nat {
    if cursor >= step { (cursor - step) as nat } else { 0 }
}

/// The cursor `step` rows down, kept on the last of `len` rows (unchanged
/// for an empty list).
pub open spec fn down_by(cursor: nat, len: nat, step: nat) -> nat {
    if len == 0 {
        cursor
    } else if cursor + step <= len - 1 {
        cursor + step
    } else {
        (len - 1) as nat
    }
}

/// Where the cursor goes for `action`, and what is reported.
pub open spec fn list_nav_spec(action: KeyCommand, cursor: nat, len: nat, visible_height: nat, reverse: bool) -> (nat, ListNav) {
    let page = page_rows(visible_height);
    match action {
        KeyCommand::MoveUp => (if reverse { down_by(cursor, len, 1) } else { up_by(cursor, 1) }, ListNav::Moved),
        KeyCommand::MoveDown => (if reverse { up_by(cursor, 1) } else { down_by(cursor, len, 1) }, ListNav::Moved),
        KeyCommand::PageUp => (if reverse { down_by(cursor, len, page) } else { up_by(cursor, page) }, ListNav::Moved),
        KeyCommand::PageDown => (if reverse { up_by(cursor, page) } else { down_by(cursor, len, page) }, ListNav::Moved),
        KeyCommand::Confirm => (cursor, ListNav::Confirmed),
        KeyCommand::Quit => (cursor, ListNav::Cancelled),
        KeyCommand::ShowHelp => (cursor, ListNav::Help),
        _ => (cursor, ListNav::Unhandled),
    }
}

/// Handle navigation for a simple linear-list picker.
///
/// Moves `cursor` within `0..len` and returns a [`ListNav`] variant
/// describing what happened. The caller is responsible for any additional
/// clamping (e.g. squash_select clamps the cursor to `source_index` after
/// a move).
///
/// - `visible_height` is the number of visible rows; one line of overlap is
///   kept when paging (same arithmetic as the commit list). The pickers that
///   always fit on screen pass their item count, so a page is the whole list.
/// - `reverse` swaps the visual direction of Up/Down to match the
///   `--reverse` display mode.
pub fn handle_list_navigation(
    action: KeyCommand,
    cursor: &mut usize,
    len: usize,
    visible_height: usize,
    reverse: bool,
) -> (nav: ListNav)
    ensures
        (*final(cursor) as nat, nav) == list_nav_spec(action, *old(cursor) as nat, len as nat, visible_height as nat, reverse),
{
    let step_page = page_size(visible_height);
    match action {
        KeyCommand::MoveUp => {
            if reverse {
                cursor_down(cursor, len, 1);
            } else {
                cursor_up(cursor, 1);
            }
            ListNav::Moved
        },
        KeyCommand::MoveDown => {
            if reverse {
                cursor_up(cursor, 1);
            } else {
                cursor_down(cursor, len, 1);
            }
            ListNav::Moved
        },
        KeyCommand::PageUp => {
            if reverse {
                cursor_down(cursor, len, step_page);
            } else {
                cursor_up(cursor, step_page);
            }
            ListNav::Moved
        },
        KeyCommand::PageDown => {
            if reverse {
                cursor_up(cursor, step_page);
            } else {
                cursor_down(cursor, len, step_page);
            }
            ListNav::Moved
        },
        KeyCommand::Confirm => ListNav::Confirmed,
        KeyCommand::Quit => ListNav::Cancelled,
        KeyCommand::ShowHelp => ListNav::Help,
        _ => ListNav::Unhandled,
    }
}

/// Moves the cursor `step` rows up, stopping at the top.
pub fn cursor_up(cursor: &mut usize, step: usize)
    ensures
        *final(cursor) as nat == up_by(*old(cursor) as nat, step as nat),
{
    *cursor = cursor.saturating_sub(step);
}

/// Moves the cursor `step` rows down, stopping on the last of `len` rows.
pub fn cursor_down(cursor: &mut usize, len: usize, step: usize)
    ensures
        *final(cursor) as nat == down_by(*old(cursor) as nat, len as nat, step as nat),
{
    if len > 0 {
        let c = cursor.saturating_add(step);
        *cursor = if c < len - 1 { c } else { len - 1 };
    }
}

/// After any move in a non-empty list, the cursor is on one of its rows.
pub proof fn lemma_list_nav_in_bounds(action: KeyCommand, cursor: nat, len: nat, visible_height: nat, reverse: bool)
    requires
        len > 0,
        cursor < len,
    ensures
        list_nav_spec(action, cursor, len, visible_height, reverse).0 < len,
{
}

} // verus!
