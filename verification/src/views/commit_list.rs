//! Commit list — key handling; the terminal front end renders the list.

use vstd::prelude::*;
use crate::app::{mirrored, refusal, AppAction, AppMode, AppState, KeyCommand, SquashMode};
use crate::scroll::page_rows;

verus! {

/// Commands that act on the selected row, and so need one.
pub open spec fn needs_selection(action: KeyCommand) -> bool {
    action == KeyCommand::Split || action == KeyCommand::Squash || action == KeyCommand::Fixup
        || action == KeyCommand::Move || action == KeyCommand::Drop || action == KeyCommand::Reword
}

/// Commands the commit list does nothing with.
pub open spec fn list_ignores(action: KeyCommand) -> bool {
    !needs_selection(action) && !(action == KeyCommand::MoveUp || action == KeyCommand::MoveDown
        || action == KeyCommand::PageUp || action == KeyCommand::PageDown || action == KeyCommand::ScrollLeft
        || action == KeyCommand::ScrollRight || action == KeyCommand::ToggleDetail || action == KeyCommand::Confirm
        || action == KeyCommand::ShowHelp || action == KeyCommand::Update || action == KeyCommand::Refresh
        || action == KeyCommand::Quit || action == KeyCommand::Undo || action == KeyCommand::Redo
        || action == KeyCommand::SeparatorLeft || action == KeyCommand::SeparatorRight)
}

/// The selection one row up, stopping at the top.
pub open spec fn row_up(sel: usize) -> usize {
    if sel > 0 { (sel - 1) as usize } else { 0 }
}

/// The selection one row down, stopping on the last row.
pub open spec fn row_down(sel: usize, n: nat) -> usize {
    if sel + 1 < n { (sel + 1) as usize } else { sel }
}

/// The selection one page up.
pub open spec fn page_up_from(sel: usize, h: usize) -> usize {
    if sel >= page_rows(h as nat) { (sel - page_rows(h as nat)) as usize } else { 0 }
}

/// The selection one page down, stopping on the last row.
pub open spec fn page_down_from(sel: usize, h: usize, n: nat) -> usize {
    if n == 0 {
        sel
    } else if sel + page_rows(h as nat) < n {
        (sel + page_rows(h as nat)) as usize
    } else {
        (n - 1) as usize
    }
}

/// The list-to-detail separator moved left by four columns (saturating).
pub open spec fn separator_left(o: i16) -> i16 {
    if o - 4 >= i16::MIN { (o - 4) as i16 } else { i16::MIN }
}

/// The list-to-detail separator moved right by four columns (saturating).
pub open spec fn separator_right(o: i16) -> i16 {
    if o + 4 <= i16::MAX { (o + 4) as i16 } else { i16::MAX }
}

/// `i16::saturating_sub(o, 4)`.
pub fn separator_moved_left(o: i16) -> (r: i16)
    ensures
        r == separator_left(o),
{
    if o >= i16::MIN + 4 { o - 4 } else { i16::MIN }
}

/// `i16::saturating_add(o, 4)`.
pub fn separator_moved_right(o: i16) -> (r: i16)
    ensures
        r == separator_right(o),
{
    if o <= i16::MAX - 4 { o + 4 } else { i16::MAX }
}

/// What a key press does in the commit list: `before` is the state the
/// key arrives in, `after` the state it leaves, `r` what the main loop is
/// asked to do.
pub open spec fn list_key_effect(action: KeyCommand, before: AppState, after: AppState, r: AppAction) -> bool {
    &&& after.commits == before.commits
    &&& ({
        let c = mirrored(action, before.reverse);
        let sel = before.selection_index;
        let n = before.commits@.len();
        let h = before.commit_list_visible_height;
        &&& c == KeyCommand::MoveUp ==> r is Handled && after.mode == before.mode
            && after.selection_index == row_up(sel)
        &&& c == KeyCommand::MoveDown ==> r is Handled && after.mode == before.mode
            && after.selection_index == row_down(sel, n)
        &&& c == KeyCommand::PageUp ==> r is Handled && after.mode == before.mode
            && after.selection_index == page_up_from(sel, h)
        &&& c == KeyCommand::PageDown ==> r is Handled && after.mode == before.mode
            && after.selection_index == page_down_from(sel, h, n)
    })
    &&& action == KeyCommand::ScrollLeft ==> r is Handled && after.mode == before.mode
        && after.fragmap_scroll_offset == row_up(before.fragmap_scroll_offset)
    &&& action == KeyCommand::ScrollRight ==> r is Handled && after.mode == before.mode
        && after.fragmap_scroll_offset == (if before.fragmap_scroll_offset < usize::MAX {
            before.fragmap_scroll_offset + 1
        } else {
            before.fragmap_scroll_offset as int
        })
    &&& action == KeyCommand::ToggleDetail || action == KeyCommand::Confirm ==> r is Handled
        && after.selection_index == before.selection_index
        && (before.mode is CommitList ==> after.mode is CommitDetail)
        && (before.mode is CommitDetail ==> after.mode is CommitList)
        && (!(before.mode is CommitList) && !(before.mode is CommitDetail) ==> after.mode == before.mode)
    &&& action == KeyCommand::ShowHelp ==> r is Handled
        && (!(before.mode is Help) ==> after.mode == AppMode::Help(Box::new(before.mode)) && after.dialog.offset == 0)
        && (before.mode matches AppMode::Help(prev) ==> after.mode == *prev)
    &&& needs_selection(action) ==> after.selection_index == before.selection_index
    &&& needs_selection(action) && !(before.commits@[before.selection_index as int].oid is Real) ==> r is Handled
        && after.mode == before.mode && after.status_is_error
        && (after.status_message matches Some(m) && m@ == refusal(
            if action == KeyCommand::Split { "split"@ }
            else if action == KeyCommand::Squash { "squash"@ }
            else if action == KeyCommand::Fixup { "fixup"@ }
            else if action == KeyCommand::Move { "move"@ }
            else if action == KeyCommand::Drop { "drop"@ }
            else { "reword"@ }))
    &&& needs_selection(action) && before.commits@[before.selection_index as int].oid is Real ==> {
        let sel = before.selection_index;
        let row = before.commits@[sel as int];
        &&& action == KeyCommand::Split ==> r is Handled
            && after.mode == (AppMode::SplitSelect { strategy_index: 0 }) && after.dialog.offset == 0
        &&& action == KeyCommand::Squash ==> r is Handled
            && after.mode == (AppMode::SquashSelect { source_index: sel, squash_mode: SquashMode::Squash })
        &&& action == KeyCommand::Fixup ==> r is Handled
            && after.mode == (AppMode::SquashSelect { source_index: sel, squash_mode: SquashMode::Fixup })
        &&& action == KeyCommand::Move ==> r is Handled
            && after.mode == (AppMode::MoveSelect { source_index: sel, insert_before: sel })
        &&& action == KeyCommand::Drop ==> after.mode == before.mode
            && (r matches AppAction::PrepareDropConfirm { commit_oid, commit_summary }
                && commit_oid == row.oid->Real_0 && commit_summary == row.summary)
        &&& action == KeyCommand::Reword ==> after.mode == before.mode
            && (r matches AppAction::PrepareReword { commit_oid, current_message }
                && commit_oid == row.oid->Real_0 && current_message == row.message)
    }
    &&& action == KeyCommand::Update || action == KeyCommand::Refresh ==> r is ReloadCommits && after == before
    &&& action == KeyCommand::Quit ==> r is Quit && after == before
    &&& action == KeyCommand::Undo ==> r is Undo && after == before
    &&& action == KeyCommand::Redo ==> r is Redo && after == before
    &&& action == KeyCommand::SeparatorLeft ==> r is Handled && after.mode == before.mode
        && after.separator_offset == separator_left(before.separator_offset)
    &&& action == KeyCommand::SeparatorRight ==> r is Handled && after.mode == before.mode
        && after.separator_offset == separator_right(before.separator_offset)
    &&& list_ignores(action) ==> r is Handled && after == before
}

/// Handle an action while in CommitList mode.
///
/// Vertical movement follows the screen: with the list shown oldest-first,
/// "up" moves toward newer rows. Operations on the selected row refuse a
/// working-tree row with an error message.
pub fn handle_key(action: KeyCommand, app: &mut AppState) -> (r: AppAction)
    requires
        needs_selection(action) ==> old(app).selection_index < old(app).commits@.len(),
    ensures
        list_key_effect(action, *old(app), *final(app), r),
{
    match action {
        KeyCommand::MoveUp => {
            if app.reverse {
                app.move_down();
            } else {
                app.move_up();
            }
            AppAction::Handled
        },
        KeyCommand::MoveDown => {
            if app.reverse {
                app.move_up();
            } else {
                app.move_down();
            }
            AppAction::Handled
        },
        KeyCommand::PageUp => {
            let h = app.commit_list_visible_height;
            if app.reverse {
                app.page_down(h);
            } else {
                app.page_up(h);
            }
            AppAction::Handled
        },
        KeyCommand::PageDown => {
            let h = app.commit_list_visible_height;
            if app.reverse {
                app.page_up(h);
            } else {
                app.page_down(h);
            }
            AppAction::Handled
        },
        KeyCommand::ScrollLeft => {
            app.scroll_fragmap_left();
            AppAction::Handled
        },
        KeyCommand::ScrollRight => {
            app.scroll_fragmap_right();
            AppAction::Handled
        },
        KeyCommand::ToggleDetail | KeyCommand::Confirm => {
            app.toggle_detail_view();
            AppAction::Handled
        },
        KeyCommand::ShowHelp => {
            app.toggle_help();
            AppAction::Handled
        },
        KeyCommand::Split => {
            app.enter_split_select();
            AppAction::Handled
        },
        KeyCommand::Squash => {
            app.enter_squash_select();
            AppAction::Handled
        },
        KeyCommand::Fixup => {
            app.enter_fixup_select();
            AppAction::Handled
        },
        KeyCommand::Move => {
            app.enter_move_select();
            AppAction::Handled
        },
        KeyCommand::Drop => {
            if !app.check_selected_real("drop") {
                return AppAction::Handled;
            }
            let commit = &app.commits[app.selection_index];
            AppAction::PrepareDropConfirm {
                commit_oid: commit.oid.expect_real_oid(),
                commit_summary: commit.summary.clone(),
            }
        },
        KeyCommand::Reword => {
            if !app.check_selected_real("reword") {
                return AppAction::Handled;
            }
            let commit = &app.commits[app.selection_index];
            AppAction::PrepareReword {
                commit_oid: commit.oid.expect_real_oid(),
                current_message: commit.message.clone(),
            }
        },
        KeyCommand::Update | KeyCommand::Refresh => AppAction::ReloadCommits,
        KeyCommand::Quit => AppAction::Quit,
        KeyCommand::Undo => AppAction::Undo,
        KeyCommand::Redo => AppAction::Redo,
        KeyCommand::SeparatorLeft => {
            app.separator_offset = separator_moved_left(app.separator_offset);
            AppAction::Handled
        },
        KeyCommand::SeparatorRight => {
            app.separator_offset = separator_moved_right(app.separator_offset);
            AppAction::Handled
        },
        _ => AppAction::Handled,
    }
}

/// The fragmap row of the row shown at `visual_idx`: the list is drawn
/// oldest-first when reversed, while the fragmap keeps newest-first order.
pub fn fragmap_index(app: &AppState, visual_idx: usize) -> (i: usize)
    ensures
        !app.reverse ==> i == visual_idx,
        app.reverse ==> i == (if app.commits@.len() >= 1 + visual_idx { app.commits@.len() - 1 - visual_idx } else { 0 }),
{
    if app.reverse {
        app.commits.len().saturating_sub(1).saturating_sub(visual_idx)
    } else {
        visual_idx
    }
}

} // verus!
