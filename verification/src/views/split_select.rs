//! Split strategy selection and split confirmation dialogs — key handling.

use vstd::prelude::*;
use crate::app::{
    strategy_at, AppAction, AppMode, AppState, KeyCommand, SplitStrategy, DEFAULT_CONTEXT_LINES,
    SPLIT_STRATEGY_COUNT,
};
use crate::views::dialog::{dialog_scrolled, handle_dialog_scroll};
use crate::views::list_nav::{handle_list_navigation, list_nav_spec, ListNav};
use crate::views::two_pane_picker::scrolled_into_view;

verus! {

/// Handle an action while in SplitSelect mode.
pub fn handle_key(action: KeyCommand, app: &mut AppState) -> (r: AppAction)
    requires
        old(app).mode matches AppMode::SplitSelect { strategy_index } ==> {
            let (cursor, nav) = list_nav_spec(action, strategy_index as nat, SPLIT_STRATEGY_COUNT as nat,
                SPLIT_STRATEGY_COUNT as nat, false);
            &&& nav == ListNav::Moved ==> cursor < usize::MAX / 4
            &&& nav == ListNav::Confirmed ==> strategy_index < SPLIT_STRATEGY_COUNT
                && old(app).selection_index < old(app).commits@.len()
                && old(app).commits@[old(app).selection_index as int].oid is Real
        },
    ensures
        final(app).commits == old(app).commits,
        final(app).selection_index == old(app).selection_index,
        !(old(app).mode is SplitSelect) ==> r is Handled && *final(app) == *old(app),
        old(app).mode matches AppMode::SplitSelect { strategy_index } ==> {
            let (cursor, nav) = list_nav_spec(action, strategy_index as nat, SPLIT_STRATEGY_COUNT as nat,
                SPLIT_STRATEGY_COUNT as nat, false);
            let strategy = strategy_at(strategy_index as nat);
            let oid = old(app).commits@[old(app).selection_index as int].oid->Real_0;
            &&& nav == ListNav::Moved ==> r is Handled
                && final(app).mode == (AppMode::SplitSelect { strategy_index: cursor as usize })
                && final(app).dialog.offset == scrolled_into_view(old(app).dialog.offset as nat,
                    old(app).dialog.max as nat, old(app).dialog.visible_height as nat, 5 + 3 * cursor, 7 + 3 * cursor)
            &&& nav == ListNav::Confirmed ==> final(app).mode is CommitList && match strategy {
                SplitStrategy::OutFiles => r matches AppAction::PrepareSplitOutFiles { commit_oid } && commit_oid == oid,
                SplitStrategy::OutHunks => r matches AppAction::PrepareSplitOutHunks { commit_oid, context_lines }
                    && commit_oid == oid && context_lines == DEFAULT_CONTEXT_LINES,
                _ => r matches AppAction::PrepareSplit { strategy: s, commit_oid } && s == strategy && commit_oid == oid,
            }
            &&& nav == ListNav::Cancelled ==> r is Handled && final(app).mode is CommitList
            &&& nav == ListNav::Help ==> r is Handled && final(app).mode == AppMode::Help(Box::new(old(app).mode))
            &&& nav == ListNav::Unhandled ==> r is Handled && *final(app) == *old(app)
        },
{
    let strategy_index = match app.mode {
        AppMode::SplitSelect { strategy_index } => strategy_index,
        _ => return AppAction::Handled,
    };

    let len = SPLIT_STRATEGY_COUNT;
    let mut cursor = strategy_index;

    match handle_list_navigation(action, &mut cursor, len, len, false) {
        ListNav::Moved => {
            app.mode = AppMode::SplitSelect { strategy_index: cursor };
            scroll_to_strategy(app, cursor);
            AppAction::Handled
        },
        ListNav::Confirmed => {
            let strategy = SplitStrategy::from_index(strategy_index);
            let commit_oid = app.commits[app.selection_index].oid.expect_real_oid();
            // "Split out file(s)" and "split out hunk(s)" each need a second
            // dialog to choose what to peel out, so they take their own flow
            // rather than the count/confirm split path.
            app.mode = AppMode::CommitList;
            match strategy {
                SplitStrategy::OutFiles => AppAction::PrepareSplitOutFiles { commit_oid },
                SplitStrategy::OutHunks => AppAction::PrepareSplitOutHunks {
                    commit_oid,
                    context_lines: DEFAULT_CONTEXT_LINES,
                },
                _ => AppAction::PrepareSplit { strategy, commit_oid },
            }
        },
        ListNav::Cancelled => {
            app.mode = AppMode::CommitList;
            AppAction::Handled
        },
        ListNav::Help => {
            app.toggle_help();
            AppAction::Handled
        },
        ListNav::Unhandled => AppAction::Handled,
    }
}

/// Scroll the dialog so that the strategy row at `index` is visible. The
/// dialog layout is: 5 header lines, then 3 lines per strategy (label +
/// description + blank). Uses the visible height from the previous render
/// frame; does nothing if that hasn't been computed yet.
pub fn scroll_to_strategy(app: &mut AppState, index: usize)
    requires
        index < usize::MAX / 4,
    ensures
        final(app).dialog.offset == scrolled_into_view(old(app).dialog.offset as nat, old(app).dialog.max as nat,
            old(app).dialog.visible_height as nat, 5 + 3 * (index as nat), 7 + 3 * (index as nat)),
        final(app).dialog.max == old(app).dialog.max,
        final(app).dialog.visible_height == old(app).dialog.visible_height,
        final(app).mode == old(app).mode,
        final(app).commits == old(app).commits,
        final(app).selection_index == old(app).selection_index,
{
    let item_top = 5 + index * 3;
    let item_bottom = item_top + 3 - 1;
    let vh = app.dialog.visible_height;
    if vh == 0 {
        return;
    }
    if item_top < app.dialog.offset {
        app.dialog.offset = item_top;
    } else if item_bottom >= app.dialog.offset && item_bottom - app.dialog.offset >= vh {
        app.dialog.offset = item_bottom + 1 - vh;
    }
    app.dialog.clamp_offset();
}

/// Handle an action while in SplitConfirm mode.
pub fn handle_confirm_key(action: KeyCommand, app: &mut AppState) -> (r: AppAction)
    ensures
        final(app).commits == old(app).commits,
        action == KeyCommand::Confirm ==> final(app).mode is CommitList && match old(app).mode {
            AppMode::SplitConfirm(p) => r matches AppAction::ExecuteSplit { strategy, commit_oid, head_oid }
                && strategy == p.strategy && commit_oid == p.commit_oid && head_oid == p.head_oid,
            _ => r is Handled,
        },
        action == KeyCommand::ShowHelp && !(old(app).mode is Help) ==> r is Handled
            && final(app).mode == AppMode::Help(Box::new(old(app).mode)),
        action == KeyCommand::Quit ==> r is Handled && final(app).mode is CommitList,
        !(action == KeyCommand::Confirm || action == KeyCommand::ShowHelp || action == KeyCommand::Quit) ==>
            r is Handled && final(app).mode == old(app).mode
            && final(app).dialog.offset == dialog_scrolled(action, old(app).dialog),
{
    match action {
        KeyCommand::Confirm => {
            if let AppMode::SplitConfirm(pending) = app.take_mode() {
                AppAction::ExecuteSplit {
                    strategy: pending.strategy,
                    commit_oid: pending.commit_oid,
                    head_oid: pending.head_oid,
                }
            } else {
                AppAction::Handled
            }
        },
        KeyCommand::ShowHelp => {
            app.toggle_help();
            AppAction::Handled
        },
        KeyCommand::Quit => {
            app.close_dialog();
            AppAction::Handled
        },
        _ => {
            handle_dialog_scroll(action, app);
            AppAction::Handled
        },
    }
}

} // verus!
