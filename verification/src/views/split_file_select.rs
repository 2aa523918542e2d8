//! File picker dialog for the "split out file" split strategy — key
//! handling and path shortening.

use vstd::prelude::*;
use crate::app::{AppAction, AppMode, AppState, KeyCommand};
use crate::views::list_nav::{handle_list_navigation, list_nav_spec, ListNav};
use crate::views::two_pane_picker::{elided, scrolled_into_view};

verus! {

/// Dialog content width.
pub const CONTENT_WIDTH: u16 = 50;

/// Display columns available for a file path on one row: the dialog content
/// width minus its borders (2), the " ▸   " marker/indent (5), and one
/// column reserved for the scrollbar.
pub const PATH_WIDTH: usize = 42;

/// Handle an action while in SplitFileSelect mode.
pub fn handle_key(action: KeyCommand, app: &mut AppState) -> (r: AppAction)
    requires
        old(app).mode matches AppMode::SplitFileSelect { files, file_index, .. } ==>
            file_index <= files@.len() && files@.len() < usize::MAX - 4,
    ensures
        final(app).commits == old(app).commits,
        !(old(app).mode is SplitFileSelect) ==> r is Handled && final(app).mode == old(app).mode,
        old(app).mode matches AppMode::SplitFileSelect { commit_oid, files, file_index } ==> {
            let (cursor, nav) = list_nav_spec(action, file_index as nat, files@.len(), files@.len(), false);
            &&& nav == ListNav::Moved ==> r is Handled
                && final(app).mode == (AppMode::SplitFileSelect { commit_oid, files, file_index: cursor as usize })
                && final(app).dialog.offset == scrolled_into_view(old(app).dialog.offset as nat,
                    old(app).dialog.max as nat, old(app).dialog.visible_height as nat, 4 + cursor, 4 + cursor)
            &&& nav == ListNav::Confirmed && file_index < files@.len() ==> final(app).mode is CommitList
                && (r matches AppAction::ExecuteSplitOutFile { commit_oid: c, file_path }
                    && c == commit_oid && file_path@ == files@[file_index as int]@)
            &&& nav == ListNav::Confirmed && file_index >= files@.len() ==> r is Handled
                && final(app).mode == old(app).mode
            &&& nav == ListNav::Cancelled ==> r is Handled && final(app).mode is CommitList
            &&& nav == ListNav::Help ==> r is Handled && final(app).mode == AppMode::Help(Box::new(old(app).mode))
            &&& nav == ListNav::Unhandled ==> r is Handled && final(app).mode == old(app).mode
        },
{
    let (file_count, file_index) = match &app.mode {
        AppMode::SplitFileSelect { files, file_index, .. } => (files.len(), *file_index),
        _ => return AppAction::Handled,
    };

    let mut cursor = file_index;
    match handle_list_navigation(action, &mut cursor, file_count, file_count, false) {
        ListNav::Moved => {
            let mode = app.take_mode();
            app.mode = match mode {
                AppMode::SplitFileSelect { commit_oid, files, .. } =>
                    AppMode::SplitFileSelect { commit_oid, files, file_index: cursor },
                other => other,
            };
            scroll_to_file(app, cursor);
            AppAction::Handled
        },
        ListNav::Confirmed => {
            if file_index >= file_count {
                return AppAction::Handled;
            }
            let mode = app.take_mode();
            match mode {
                AppMode::SplitFileSelect { commit_oid, files, .. } => {
                    let file_path = files[file_index].clone();
                    AppAction::ExecuteSplitOutFile { commit_oid, file_path }
                },
                other => {
                    app.mode = other;
                    AppAction::Handled
                },
            }
        },
        ListNav::Cancelled => {
            app.close_dialog();
            AppAction::Handled
        },
        ListNav::Help => {
            app.toggle_help();
            AppAction::Handled
        },
        ListNav::Unhandled => AppAction::Handled,
    }
}

/// Scroll the dialog so that the file row at `index` is visible. The layout
/// is: 4 header lines, then 1 line per file.
pub fn scroll_to_file(app: &mut AppState, index: usize)
    requires
        index < usize::MAX - 4,
    ensures
        final(app).dialog.offset == scrolled_into_view(old(app).dialog.offset as nat, old(app).dialog.max as nat,
            old(app).dialog.visible_height as nat, 4 + (index as nat), 4 + (index as nat)),
        final(app).dialog.max == old(app).dialog.max,
        final(app).dialog.visible_height == old(app).dialog.visible_height,
        final(app).mode == old(app).mode,
        final(app).commits == old(app).commits,
        final(app).selection_index == old(app).selection_index,
{
    let item = 4 + index;
    let vh = app.dialog.visible_height;
    if vh == 0 {
        return;
    }
    if item < app.dialog.offset {
        app.dialog.offset = item;
    } else if item - app.dialog.offset >= vh {
        app.dialog.offset = item + 1 - vh;
    }
    app.dialog.clamp_offset();
}

/// Shorten `path` to at most `max` display columns for the picker by eliding
/// leading directory components (front ellipsis), so the filename and its
/// nearest parents stay visible. Same rule as the two-pane pickers; never
/// wider than `max`.
pub fn elide_path(path: &str, max: usize) -> (r: String)
    ensures
        r@ == elided(path@, max as nat),
        r@.len() <= max,
{
    crate::views::two_pane_picker::elide_path(path, max)
}

} // verus!
