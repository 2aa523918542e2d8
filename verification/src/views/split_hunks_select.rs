//! Hunk picker for the "split out hunk(s)" split strategy — key handling of
//! the two-pane, multi-select list of the commit's hunks.

use vstd::prelude::*;
use crate::app::{AppAction, AppMode, AppState, HunkChoice, KeyCommand};
use crate::scroll::min_int;
use crate::views::list_nav::{handle_list_navigation, list_nav_spec, ListNav};
use crate::views::split_files_select::toggled;
use crate::views::two_pane_picker::{scrolled_into_view, strictly_ascending, toggle_mark};

verus! {

/// The (delta, hunk) indices of the hunks at positions `sel` (positions past
/// the end are skipped).
pub open spec fn picked_hunks(hunks: Seq<HunkChoice>, sel: Seq<usize>) -> Seq<(usize, usize)>
    decreases sel.len(),
{
    if sel.len() == 0 {
        Seq::empty()
    } else {
        let rest = picked_hunks(hunks, sel.drop_last());
        if sel.last() < hunks.len() {
            let h = hunks[sel.last() as int];
            rest.push((h.delta_idx, h.hunk_idx))
        } else {
            rest
        }
    }
}

/// The hunks to split out: the marked ones, or the one under the cursor
/// when none is marked.
pub open spec fn chosen_hunks(hunks: Seq<HunkChoice>, selected: Seq<usize>, hunk_index: usize) -> Seq<(usize, usize)> {
    if selected.len() == 0 { picked_hunks(hunks, seq![hunk_index]) } else { picked_hunks(hunks, selected) }
}

fn pick_hunks(hunks: &Vec<HunkChoice>, sel: &Vec<usize>) -> (r: Vec<(usize, usize)>)
    ensures
        r@ == picked_hunks(hunks@, sel@),
{
    let mut r: Vec<(usize, usize)> = Vec::new();
    let mut i: usize = 0;
    assert(sel@.take(0) =~= Seq::<usize>::empty());
    while i < sel.len()
        invariant
            i <= sel@.len(),
            r@ == picked_hunks(hunks@, sel@.take(i as int)),
        decreases sel@.len() - i,
    {
        assert(sel@.take(i + 1).drop_last() =~= sel@.take(i as int));
        let k = sel[i];
        if k < hunks.len() {
            r.push((hunks[k].delta_idx, hunks[k].hunk_idx));
        }
        i = i + 1;
    }
    assert(sel@.take(sel@.len() as int) =~= sel@);
    r
}

/// Handle an action while in SplitHunksSelect mode.
pub fn handle_key(action: KeyCommand, app: &mut AppState) -> (r: AppAction)
    requires
        old(app).mode matches AppMode::SplitHunksSelect { selected, hunks, hunk_index, .. } ==>
            strictly_ascending(selected@),
    ensures
        final(app).commits == old(app).commits,
        !(old(app).mode is SplitHunksSelect) ==> r is Handled && final(app).mode == old(app).mode,
        old(app).mode matches AppMode::SplitHunksSelect { commit_oid, hunks, hunk_index, selected, context_lines, preview_h_scroll, preview_v_scroll } ==> {
            let (cursor, nav) = list_nav_spec(action, hunk_index as nat, hunks@.len(), hunks@.len(), false);
            let chosen = chosen_hunks(hunks@, selected@, hunk_index);
            &&& nav == ListNav::Moved ==> r is Handled
                && final(app).mode == (AppMode::SplitHunksSelect { commit_oid, hunks, hunk_index: cursor as usize,
                    selected, context_lines, preview_h_scroll: 0, preview_v_scroll: 0 })
                && final(app).dialog.offset == scrolled_into_view(old(app).dialog.offset as nat,
                    old(app).dialog.max as nat, old(app).dialog.visible_height as nat, cursor, cursor)
            &&& nav == ListNav::Confirmed ==> final(app).mode is CommitList && (if chosen.len() == 0 {
                r is Handled
            } else {
                r matches AppAction::ExecuteSplitOutHunks { commit_oid: c, hunks: h, context_lines: cl }
                    && c == commit_oid && h@ == chosen && cl == context_lines
            })
            &&& nav == ListNav::Cancelled ==> r is Handled && final(app).mode is CommitList
            &&& nav == ListNav::Help ==> r is Handled && final(app).mode == AppMode::Help(Box::new(old(app).mode))
            &&& nav == ListNav::Unhandled ==> match action {
                KeyCommand::TogglePickerItem => r is Handled && (final(app).mode matches AppMode::SplitHunksSelect {
                        commit_oid: c2, hunks: h2, hunk_index: i2, selected: s2, context_lines: cl2,
                        preview_h_scroll: ph2, preview_v_scroll: pv2 }
                    && c2 == commit_oid && h2 == hunks && i2 == hunk_index && cl2 == context_lines
                    && ph2 == preview_h_scroll && pv2 == preview_v_scroll && toggled(selected@, s2@, hunk_index)),
                KeyCommand::ScrollLeft => r is Handled && final(app).mode == (AppMode::SplitHunksSelect { commit_oid,
                    hunks, hunk_index, selected, context_lines,
                    preview_h_scroll: (if preview_h_scroll > 0 { preview_h_scroll - 1 } else { 0 }) as usize,
                    preview_v_scroll }),
                KeyCommand::ScrollRight => r is Handled && final(app).mode == (AppMode::SplitHunksSelect { commit_oid,
                    hunks, hunk_index, selected, context_lines,
                    preview_h_scroll: min_int(preview_h_scroll + 1, usize::MAX as int) as usize, preview_v_scroll }),
                KeyCommand::ScrollListUp => r is Handled && final(app).mode == (AppMode::SplitHunksSelect { commit_oid,
                    hunks, hunk_index, selected, context_lines, preview_h_scroll,
                    preview_v_scroll: (if preview_v_scroll > 0 { preview_v_scroll - 1 } else { 0 }) as usize }),
                KeyCommand::ScrollListDown => r is Handled && final(app).mode == (AppMode::SplitHunksSelect { commit_oid,
                    hunks, hunk_index, selected, context_lines, preview_h_scroll,
                    preview_v_scroll: min_int(preview_v_scroll + 1, usize::MAX as int) as usize }),
                KeyCommand::IncreaseContext => final(app).mode == old(app).mode
                    && (r matches AppAction::PrepareSplitOutHunks { commit_oid: c, context_lines: cl }
                        && c == commit_oid && cl == min_int(context_lines + 1, u32::MAX as int)),
                KeyCommand::DecreaseContext => final(app).mode == old(app).mode
                    && (r matches AppAction::PrepareSplitOutHunks { commit_oid: c, context_lines: cl }
                        && c == commit_oid && cl == (if context_lines > 0 { context_lines - 1 } else { 0 })),
                _ => r is Handled && final(app).mode == old(app).mode,
            }
        },
{
    let (hunk_count, hunk_index, context_lines) = match &app.mode {
        AppMode::SplitHunksSelect { hunks, hunk_index, context_lines, .. } => (hunks.len(), *hunk_index, *context_lines),
        _ => return AppAction::Handled,
    };

    let mut cursor = hunk_index;
    match handle_list_navigation(action, &mut cursor, hunk_count, hunk_count, false) {
        ListNav::Moved => {
            let mode = app.take_mode();
            app.mode = match mode {
                AppMode::SplitHunksSelect { commit_oid, hunks, selected, context_lines, .. } => AppMode::SplitHunksSelect {
                    commit_oid,
                    hunks,
                    hunk_index: cursor,
                    selected,
                    context_lines,
                    preview_h_scroll: 0,
                    preview_v_scroll: 0,
                },
                other => other,
            };
            scroll_to_hunk(app, cursor);
            AppAction::Handled
        },
        ListNav::Confirmed => {
            let mode = app.take_mode();
            let AppMode::SplitHunksSelect { commit_oid, hunks, selected, .. } = mode else {
                return AppAction::Handled;
            };
            // Nothing explicitly marked: fall back to just the hunk under the
            // cursor, so a single hunk can still be split out in one keypress.
            let chosen: Vec<(usize, usize)> = if selected.len() == 0 {
                let mut only: Vec<usize> = Vec::new();
                only.push(hunk_index);
                assert(only@ =~= seq![hunk_index]);
                pick_hunks(&hunks, &only)
            } else {
                pick_hunks(&hunks, &selected)
            };
            if chosen.len() == 0 {
                return AppAction::Handled;
            }
            AppAction::ExecuteSplitOutHunks { commit_oid, hunks: chosen, context_lines }
        },
        ListNav::Cancelled => {
            app.close_dialog();
            AppAction::Handled
        },
        ListNav::Help => {
            app.toggle_help();
            AppAction::Handled
        },
        ListNav::Unhandled => {
            match action {
                // Re-fetch the commit's diff at the new context level and
                // rebuild the hunk list from scratch.
                KeyCommand::IncreaseContext => {
                    if let AppMode::SplitHunksSelect { commit_oid, .. } = &app.mode {
                        return AppAction::PrepareSplitOutHunks {
                            commit_oid: commit_oid.duplicate(),
                            context_lines: context_lines.saturating_add(1),
                        };
                    }
                    return AppAction::Handled;
                },
                KeyCommand::DecreaseContext => {
                    if let AppMode::SplitHunksSelect { commit_oid, .. } = &app.mode {
                        return AppAction::PrepareSplitOutHunks {
                            commit_oid: commit_oid.duplicate(),
                            context_lines: context_lines.saturating_sub(1),
                        };
                    }
                    return AppAction::Handled;
                },
                _ => {},
            }
            let mode = app.take_mode();
            app.mode = match mode {
                AppMode::SplitHunksSelect { commit_oid, hunks, hunk_index, selected, context_lines, preview_h_scroll, preview_v_scroll } => {
                    let mut selected = selected;
                    let mut h = preview_h_scroll;
                    let mut v = preview_v_scroll;
                    match action {
                        KeyCommand::TogglePickerItem => toggle_mark(&mut selected, hunk_index),
                        KeyCommand::ScrollLeft => h = h.saturating_sub(1),
                        KeyCommand::ScrollRight => h = h.saturating_add(1),
                        KeyCommand::ScrollListUp => v = v.saturating_sub(1),
                        KeyCommand::ScrollListDown => v = v.saturating_add(1),
                        _ => {},
                    }
                    AppMode::SplitHunksSelect {
                        commit_oid,
                        hunks,
                        hunk_index,
                        selected,
                        context_lines,
                        preview_h_scroll: h,
                        preview_v_scroll: v,
                    }
                },
                other => other,
            };
            AppAction::Handled
        },
    }
}

/// Scroll the dialog so the hunk row at `index` is visible in the list pane
/// (one line per hunk, no header offset).
pub fn scroll_to_hunk(app: &mut AppState, index: usize)
    ensures
        final(app).dialog.offset == scrolled_into_view(old(app).dialog.offset as nat, old(app).dialog.max as nat,
            old(app).dialog.visible_height as nat, index as nat, index as nat),
        final(app).dialog.max == old(app).dialog.max,
        final(app).dialog.visible_height == old(app).dialog.visible_height,
        final(app).mode == old(app).mode,
        final(app).commits == old(app).commits,
        final(app).selection_index == old(app).selection_index,
{
    let vh = app.dialog.visible_height;
    if vh == 0 {
        return;
    }
    if index < app.dialog.offset {
        app.dialog.offset = index;
    } else if index - app.dialog.offset >= vh {
        app.dialog.offset = index - vh + 1;
    }
    app.dialog.clamp_offset();
}

} // verus!
