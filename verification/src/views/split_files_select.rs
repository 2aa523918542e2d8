//! File picker for the "split out file(s)" split strategy — key handling of
//! the two-pane, multi-select list of the commit's changed files.

use vstd::prelude::*;
use crate::scroll::revealing;
use crate::app::{AppAction, AppMode, AppState, KeyCommand};
use crate::diff::{file_path, identity_path, FileDiff};
use crate::scroll::min_int;
use crate::views::list_nav::{handle_list_navigation, list_nav_spec, ListNav};
use crate::views::two_pane_picker::{strictly_ascending, string_views, toggle_mark};

verus! {

/// The paths of the files at positions `sel` (positions past the end are
/// skipped).
pub open spec fn picked_paths(files: Seq<FileDiff>, sel: Seq<usize>) -> Seq<Seq<char>>
    decreases sel.len(),
{
    if sel.len() == 0 {
        Seq::empty()
    } else {
        let rest = picked_paths(files, sel.drop_last());
        if sel.last() < files.len() { rest.push(identity_path(files[sel.last() as int])) } else { rest }
    }
}

/// The files to split out: the marked ones, or the one under the cursor
/// when none is marked.
pub open spec fn chosen_paths(files: Seq<FileDiff>, selected: Seq<usize>, file_index: usize) -> Seq<Seq<char>> {
    if selected.len() == 0 { picked_paths(files, seq![file_index]) } else { picked_paths(files, selected) }
}

fn pick_paths(files: &Vec<FileDiff>, sel: &Vec<usize>) -> (r: Vec<String>)
    ensures
        string_views(r@) == picked_paths(files@, sel@),
{
    let mut r: Vec<String> = Vec::new();
    let mut i: usize = 0;
    assert(sel@.take(0) =~= Seq::<usize>::empty());
    while i < sel.len()
        invariant
            i <= sel@.len(),
            string_views(r@) == picked_paths(files@, sel@.take(i as int)),
        decreases sel@.len() - i,
    {
        assert(sel@.take(i + 1).drop_last() =~= sel@.take(i as int));
        let k = sel[i];
        if k < files.len() {
            let ghost before = r@;
            r.push(file_path(&files[k]));
            assert(string_views(r@) =~= string_views(before).push(identity_path(files@[k as int])));
        }
        i = i + 1;
    }
    assert(sel@.take(sel@.len() as int) =~= sel@);
    r
}

/// The marks after toggling `x`.
pub open spec fn toggled(old_marks: Seq<usize>, new_marks: Seq<usize>, x: usize) -> bool {
    &&& strictly_ascending(new_marks)
    &&& forall|y: usize| new_marks.contains(y) <==> (old_marks.contains(y) != (y == x))
}

/// Two ascending mark lists with the same members are the same list.
pub proof fn lemma_ascending_by_members(a: Seq<usize>, b: Seq<usize>)
    requires
        strictly_ascending(a),
        strictly_ascending(b),
        forall|y: usize| a.contains(y) <==> b.contains(y),
    ensures
        a == b,
    decreases a.len() + b.len(),
{
    if a.len() == 0 {
        if b.len() > 0 {
            assert(b.contains(b[0]));
        }
        assert(a =~= b);
    } else if b.len() == 0 {
        assert(a.contains(a[0]));
    } else {
        // Both start with the least member.
        assert(a.contains(a[0]));
        assert(b.contains(b[0]));
        let ia = choose|i: int| 0 <= i < a.len() && a[i] == b[0];
        let ib = choose|i: int| 0 <= i < b.len() && b[i] == a[0];
        assert(a[0] <= a[ia]);
        assert(b[0] <= b[ib]);
        assert(a[0] == b[0]);
        let (ra, rb) = (a.drop_first(), b.drop_first());
        assert forall|y: usize| ra.contains(y) <==> rb.contains(y) by {
            if ra.contains(y) {
                let i = choose|i: int| 0 <= i < ra.len() && ra[i] == y;
                assert(a[i + 1] == y && a.contains(y));
                let j = choose|j: int| 0 <= j < b.len() && b[j] == y;
                assert(a[0] < a[i + 1]);
                assert(j != 0);
                assert(rb[j - 1] == y);
            }
            if rb.contains(y) {
                let i = choose|i: int| 0 <= i < rb.len() && rb[i] == y;
                assert(b[i + 1] == y && b.contains(y));
                let j = choose|j: int| 0 <= j < a.len() && a[j] == y;
                assert(b[0] < b[i + 1]);
                assert(j != 0);
                assert(ra[j - 1] == y);
            }
        }
        lemma_ascending_by_members(ra, rb);
        assert(a =~= b) by {
            assert forall|i: int| 0 <= i < a.len() implies a[i] == b[i] by {
                if i > 0 {
                    assert(a[i] == ra[i - 1] && b[i] == rb[i - 1]);
                }
            }
        }
    }
}

/// Toggling the same row twice gives back the marks as they were.
pub proof fn lemma_toggle_twice(a: Seq<usize>, b: Seq<usize>, c: Seq<usize>, x: usize)
    requires
        strictly_ascending(a),
        toggled(a, b, x),
        toggled(b, c, x),
    ensures
        c == a,
{
    assert forall|y: usize| c.contains(y) <==> a.contains(y) by {
        assert(c.contains(y) <==> (b.contains(y) != (y == x)));
        assert(b.contains(y) <==> (a.contains(y) != (y == x)));
    }
    lemma_ascending_by_members(c, a);
}

/// Handle an action while in SplitFilesSelect mode.
pub fn handle_key(action: KeyCommand, app: &mut AppState) -> (r: AppAction)
    requires
        old(app).mode matches AppMode::SplitFilesSelect { selected, .. } ==> strictly_ascending(selected@),
    ensures
        final(app).commits == old(app).commits,
        !(old(app).mode is SplitFilesSelect) ==> r is Handled && *final(app) == *old(app),
        old(app).mode matches AppMode::SplitFilesSelect { commit_oid, files, file_index, selected, preview_h_scroll, preview_v_scroll } ==> {
            let (cursor, nav) = list_nav_spec(action, file_index as nat, files@.len(),
                old(app).dialog.visible_height as nat, false);
            let chosen = chosen_paths(files@, selected@, file_index);
            &&& nav == ListNav::Moved ==> r is Handled
                && final(app).mode == (AppMode::SplitFilesSelect { commit_oid, files, file_index: cursor as usize,
                    selected, preview_h_scroll: 0, preview_v_scroll: 0 })
                && final(app).dialog.offset == revealing(old(app).dialog, cursor, 1)
            &&& nav == ListNav::Confirmed ==> final(app).mode is CommitList && (if chosen.len() == 0 {
                r is Handled
            } else {
                r matches AppAction::ExecuteSplitOutFiles { commit_oid: c, file_paths }
                    && c == commit_oid && string_views(file_paths@) == chosen
            })
            &&& nav == ListNav::Cancelled ==> r is Handled && final(app).mode is CommitList
            &&& nav == ListNav::Help ==> r is Handled && final(app).mode == AppMode::Help(Box::new(old(app).mode))
            &&& nav == ListNav::Unhandled ==> *final(app) == (AppState { mode: final(app).mode, ..*old(app) })
            &&& nav == ListNav::Unhandled ==> r is Handled && (match action {
                KeyCommand::TogglePickerItem => final(app).mode matches AppMode::SplitFilesSelect {
                        commit_oid: c2, files: f2, file_index: i2, selected: s2, preview_h_scroll: h2, preview_v_scroll: v2 }
                    && c2 == commit_oid && f2 == files && i2 == file_index && h2 == preview_h_scroll
                    && v2 == preview_v_scroll && toggled(selected@, s2@, file_index),
                KeyCommand::ScrollLeft => final(app).mode == (AppMode::SplitFilesSelect { commit_oid, files, file_index,
                    selected, preview_h_scroll: (if preview_h_scroll > 0 { preview_h_scroll - 1 } else { 0 }) as usize,
                    preview_v_scroll }),
                KeyCommand::ScrollRight => final(app).mode == (AppMode::SplitFilesSelect { commit_oid, files, file_index,
                    selected, preview_h_scroll: min_int(preview_h_scroll + 1, usize::MAX as int) as usize,
                    preview_v_scroll }),
                KeyCommand::ScrollListUp => final(app).mode == (AppMode::SplitFilesSelect { commit_oid, files, file_index,
                    selected, preview_h_scroll,
                    preview_v_scroll: (if preview_v_scroll > 0 { preview_v_scroll - 1 } else { 0 }) as usize }),
                KeyCommand::ScrollListDown => final(app).mode == (AppMode::SplitFilesSelect { commit_oid, files, file_index,
                    selected, preview_h_scroll,
                    preview_v_scroll: min_int(preview_v_scroll + 1, usize::MAX as int) as usize }),
                _ => final(app).mode == old(app).mode,
            })
        },
{
    let (file_count, file_index) = match &app.mode {
        AppMode::SplitFilesSelect { files, file_index, .. } => (files.len(), *file_index),
        _ => return AppAction::Handled,
    };

    let mut cursor = file_index;
    // Items are one row each, so the list pane's height is exactly how many
    // fit — a page steps by one screenful rather than to the end of the list.
    let vh = app.dialog.visible_height;
    match handle_list_navigation(action, &mut cursor, file_count, vh, false) {
        ListNav::Moved => {
            let mode = app.take_mode();
            app.mode = match mode {
                AppMode::SplitFilesSelect { commit_oid, files, selected, .. } => AppMode::SplitFilesSelect {
                    commit_oid,
                    files,
                    file_index: cursor,
                    selected,
                    preview_h_scroll: 0,
                    preview_v_scroll: 0,
                },
                other => other,
            };
            app.dialog.ensure_visible(cursor, 1);
            AppAction::Handled
        },
        ListNav::Confirmed => {
            let mode = app.take_mode();
            let AppMode::SplitFilesSelect { commit_oid, files, selected, .. } = mode else {
                return AppAction::Handled;
            };
            // Nothing explicitly marked: fall back to just the file under the
            // cursor, so a single file can still be split out in one keypress.
            let chosen: Vec<String> = if selected.len() == 0 {
                let mut only: Vec<usize> = Vec::new();
                only.push(file_index);
                assert(only@ =~= seq![file_index]);
                pick_paths(&files, &only)
            } else {
                pick_paths(&files, &selected)
            };
            if chosen.len() == 0 {
                return AppAction::Handled;
            }
            AppAction::ExecuteSplitOutFiles { commit_oid, file_paths: chosen }
        },
        ListNav::Cancelled => {
            app.close_dialog();
            AppAction::Handled
        },
        ListNav::Help => {
            app.toggle_help();
            AppAction::Handled
        },
        ListNav::Unhandled => {
            let mode = app.take_mode();
            app.mode = match mode {
                AppMode::SplitFilesSelect { commit_oid, files, file_index, selected, preview_h_scroll, preview_v_scroll } => {
                    let mut selected = selected;
                    let mut h = preview_h_scroll;
                    let mut v = preview_v_scroll;
                    match action {
                        KeyCommand::TogglePickerItem => toggle_mark(&mut selected, file_index),
                        KeyCommand::ScrollLeft => h = h.saturating_sub(1),
                        KeyCommand::ScrollRight => h = h.saturating_add(1),
                        KeyCommand::ScrollListUp => v = v.saturating_sub(1),
                        KeyCommand::ScrollListDown => v = v.saturating_add(1),
                        _ => {},
                    }
                    AppMode::SplitFilesSelect {
                        commit_oid,
                        files,
                        file_index,
                        selected,
                        preview_h_scroll: h,
                        preview_v_scroll: v,
                    }
                },
                other => other,
            };
            AppAction::Handled
        },
    }
}

} // verus!
