//! Squash target selection — key handling; the commit list renders it.

use vstd::prelude::*;
use crate::app::{refusal, AppAction, AppMode, AppState, KeyCommand, SquashMode};
use crate::views::list_nav::{handle_list_navigation, list_nav_spec, ListNav};

verus! {

/// Handle an action while in SquashSelect mode.
///
/// The user navigates the commit list to pick a squash target. The source
/// commit (from `source_index`) will be squashed *into* the chosen target.
/// Navigation is clamped so the cursor cannot move to commits later than
/// the source — squashing into a later commit is not supported.
pub fn handle_key(action: KeyCommand, app: &mut AppState) -> (r: AppAction)
    requires
        old(app).mode matches AppMode::SquashSelect { source_index, .. } ==> (action == KeyCommand::Confirm
            && old(app).selection_index != source_index ==> old(app).selection_index < old(app).commits@.len()
            && (old(app).commits@[old(app).selection_index as int].oid is Real ==> source_index < old(app).commits@.len()
                && old(app).commits@[source_index as int].oid is Real)),
    ensures
        final(app).commits == old(app).commits,
        !(old(app).mode is SquashSelect) ==> r is Handled && *final(app) == *old(app),
        old(app).mode matches AppMode::SquashSelect { source_index, squash_mode } ==> {
            let (cursor, nav) = list_nav_spec(action, old(app).selection_index as nat,
                old(app).commits@.len(), old(app).commit_list_visible_height as nat, old(app).reverse);
            let sel = old(app).selection_index;
            let target = old(app).commits@[sel as int];
            let source = old(app).commits@[source_index as int];
            &&& nav == ListNav::Moved ==> r is Handled && final(app).mode == old(app).mode
                && final(app).selection_index == (if cursor <= source_index { cursor } else { source_index as nat })
            &&& nav == ListNav::Confirmed && sel == source_index ==> r is Handled
                && final(app).mode == old(app).mode && final(app).status_is_error
                && (final(app).status_message matches Some(m) && m@ == "Cannot squash a commit into itself"@)
            &&& nav == ListNav::Confirmed && sel != source_index && !(target.oid is Real) ==> r is Handled
                && final(app).mode == old(app).mode && final(app).status_is_error
                && (final(app).status_message matches Some(m) && m@ == refusal("squash into"@))
            &&& nav == ListNav::Confirmed && sel != source_index && target.oid is Real ==> final(app).mode is CommitList
                && (r matches AppAction::PrepareSquash { source_oid, target_oid, source_message, target_message, squash_mode: m }
                    && source_oid@ == source.oid->Real_0@ && target_oid@ == target.oid->Real_0@
                    && source_message@ == source.message@ && target_message@ == target.message@ && m == squash_mode)
            &&& nav == ListNav::Cancelled ==> r is Handled && final(app).mode is CommitList
                && final(app).selection_index == source_index
            &&& nav == ListNav::Help ==> r is Handled && final(app).mode == AppMode::Help(Box::new(old(app).mode))
            &&& nav == ListNav::Unhandled ==> r is Handled && *final(app) == *old(app)
        },
{
    let (source_index, squash_mode) = match app.mode {
        AppMode::SquashSelect { source_index, squash_mode } => (source_index, squash_mode),
        _ => return AppAction::Handled,
    };

    let len = app.commits.len();
    let page_size = app.commit_list_visible_height;
    let reverse = app.reverse;
    let mut cursor = app.selection_index;

    match handle_list_navigation(action, &mut cursor, len, page_size, reverse) {
        ListNav::Moved => {
            app.selection_index = if cursor <= source_index { cursor } else { source_index };
            AppAction::Handled
        },
        ListNav::Confirmed => {
            if app.selection_index == source_index {
                let msg = String::from_str("Cannot squash a commit into itself");
                app.set_error_message(msg);
                return AppAction::Handled;
            }
            if !app.check_selected_real("squash into") {
                return AppAction::Handled;
            }
            let target = &app.commits[app.selection_index];
            let target_oid = target.oid.expect_real_oid();
            let target_message = target.message.clone();

            let source = &app.commits[source_index];
            let result = AppAction::PrepareSquash {
                source_oid: source.oid.expect_real_oid(),
                target_oid,
                source_message: source.message.clone(),
                target_message,
                squash_mode,
            };

            app.mode = AppMode::CommitList;
            result
        },
        ListNav::Cancelled => {
            app.cancel_squash_select();
            AppAction::Handled
        },
        ListNav::Help => {
            app.toggle_help();
            AppAction::Handled
        },
        ListNav::Unhandled => AppAction::Handled,
    }
}

} // verus!
