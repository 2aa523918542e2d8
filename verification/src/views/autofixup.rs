//! Bulk autofixup confirmation dialog — key handling.

use vstd::prelude::*;
use crate::app::{AppAction, AppMode, AppState, AutofixupPair, KeyCommand};
use crate::autofixup::{edit_template, group_by_target, grouping, groups_view, rows_before, template_text, AutofixupGroup};
use crate::views::list_nav::{handle_list_navigation, list_nav_spec, ListNav};

verus! {

/// The dialog offset after making group `index` visible: the header is five
/// lines, then each group's target and sources.
pub open spec fn group_scrolled(offset: nat, max: nat, vh: nat, groups: Seq<(Seq<char>, Seq<usize>)>, index: int) -> nat {
    let start = 5 + rows_before(groups, index);
    let height = 1 + groups[index].1.len();
    if vh == 0 {
        offset
    } else {
        let o = if start < offset {
            start
        } else if start + height > offset + vh {
            (start + height - vh) as nat
        } else {
            offset
        };
        if o <= max { o } else { max }
    }
}

proof fn lemma_rows_before_grow(groups: Seq<(Seq<char>, Seq<usize>)>, a: int, b: int)
    requires
        0 <= a <= b <= groups.len(),
    ensures
        rows_before(groups, a) <= rows_before(groups, b),
    decreases b - a,
{
    if a < b {
        lemma_rows_before_grow(groups, a, b - 1);
    }
}

/// Scroll the dialog so the target group at `index` is visible: five header
/// lines, then one line per group's target plus one per source underneath
/// it.
pub fn scroll_to_group(app: &mut AppState, groups: &Vec<AutofixupGroup>, index: usize)
    requires
        index < groups@.len(),
        rows_before(crate::autofixup::groups_view(groups@), groups@.len() as int) < usize::MAX - 10,
    ensures
        final(app).dialog.offset == group_scrolled(old(app).dialog.offset as nat, old(app).dialog.max as nat,
            old(app).dialog.visible_height as nat, crate::autofixup::groups_view(groups@), index as int),
        final(app).dialog.max == old(app).dialog.max,
        final(app).mode == old(app).mode,
        final(app).commits == old(app).commits,
{
    let ghost gv = crate::autofixup::groups_view(groups@);
    let mut group_start: usize = 0;
    let mut i: usize = 0;
    while i < index
        invariant
            index < groups@.len(),
            gv == crate::autofixup::groups_view(groups@),
            rows_before(gv, groups@.len() as int) < usize::MAX - 10,
            i <= index,
            group_start == rows_before(gv, i as int),
        decreases index - i,
    {
        proof { lemma_rows_before_grow(gv, i + 1, groups@.len() as int); }
        group_start = group_start + 1 + groups[i].sources.len();
        i = i + 1;
    }
    proof { lemma_rows_before_grow(gv, index + 1, groups@.len() as int); }
    let group_start = group_start + 5;
    let group_height = 1 + groups[index].sources.len();
    let vh = app.dialog.visible_height;
    if vh == 0 {
        return;
    }
    if group_start < app.dialog.offset {
        app.dialog.offset = group_start;
    } else if group_start + group_height > app.dialog.offset && group_start + group_height - app.dialog.offset > vh {
        app.dialog.offset = group_start + group_height - vh;
    }
    app.dialog.clamp_offset();
}

/// Handle an action while in AutofixupConfirm mode.
pub fn handle_confirm_key(action: KeyCommand, app: &mut AppState) -> (r: AppAction)
    requires
        old(app).mode matches AppMode::AutofixupConfirm(p) ==> {
            let n = grouping(p.pairs@, p.pairs@.len()).len();
            let (cursor, nav) = list_nav_spec(action, p.selected_group as nat, n, n, false);
            nav == ListNav::Moved ==> cursor < n && p.pairs@.len() < usize::MAX / 4
        },
    ensures
        final(app).commits == old(app).commits,
        !(old(app).mode is AutofixupConfirm) ==> r is Handled && *final(app) == *old(app),
        old(app).mode matches AppMode::AutofixupConfirm(p) ==> {
            let groups = grouping(p.pairs@, p.pairs@.len());
            let (cursor, nav) = list_nav_spec(action, p.selected_group as nat, groups.len(), groups.len(), false);
            &&& nav == ListNav::Moved ==> r is Handled && (final(app).mode matches AppMode::AutofixupConfirm(q)
                && q.selected_group == cursor && q.pairs == p.pairs && q.head_oid == p.head_oid
                && q.reference_oid == p.reference_oid && q.message_overrides == p.message_overrides)
                && final(app).dialog.offset == group_scrolled(old(app).dialog.offset as nat, old(app).dialog.max as nat,
                    old(app).dialog.visible_height as nat, groups, cursor as int)
            &&& nav == ListNav::Confirmed ==> final(app).mode is CommitList
                && (r matches AppAction::ExecuteAutofixup { head_oid, reference_oid, pairs, message_overrides }
                    && head_oid == p.head_oid && reference_oid == p.reference_oid && pairs == p.pairs
                    && message_overrides == p.message_overrides)
            &&& nav == ListNav::Cancelled ==> r is Handled && final(app).mode is CommitList
            &&& nav == ListNav::Help ==> r is Handled && final(app).mode == AppMode::Help(Box::new(old(app).mode))
            &&& nav == ListNav::Unhandled ==> *final(app) == *old(app)
            &&& nav == ListNav::Unhandled && action == KeyCommand::Reword && cursor < groups.len() ==>
                (r matches AppAction::PrepareAutofixupEditMessage { target_summary, template }
                    && target_summary@ == groups[cursor as int].0)
            &&& nav == ListNav::Unhandled && !(action == KeyCommand::Reword && cursor < groups.len()) ==>
                r is Handled
        },
{
    let (groups, selected_group) = match &app.mode {
        AppMode::AutofixupConfirm(p) => (group_by_target(&p.pairs), p.selected_group),
        _ => return AppAction::Handled,
    };
    let ghost p_pairs: Seq<AutofixupPair> = match &app.mode {
        AppMode::AutofixupConfirm(p) => p.pairs@,
        _ => Seq::empty(),
    };
    let n = groups.len();
    let mut cursor = selected_group;

    match handle_list_navigation(action, &mut cursor, n, n, false) {
        ListNav::Moved => {
            let mode = app.take_mode();
            app.mode = match mode {
                AppMode::AutofixupConfirm(mut pending) => {
                    pending.selected_group = cursor;
                    AppMode::AutofixupConfirm(pending)
                },
                other => other,
            };
            proof { crate::autofixup::lemma_grouping_rows(p_pairs, p_pairs.len()); }
            scroll_to_group(app, &groups, cursor);
            AppAction::Handled
        },
        ListNav::Confirmed => {
            if let AppMode::AutofixupConfirm(pending) = app.take_mode() {
                AppAction::ExecuteAutofixup {
                    head_oid: pending.head_oid,
                    reference_oid: pending.reference_oid,
                    pairs: pending.pairs,
                    message_overrides: pending.message_overrides,
                }
            } else {
                AppAction::Handled
            }
        },
        ListNav::Cancelled => {
            app.close_dialog();
            AppAction::Handled
        },
        ListNav::Help => {
            app.toggle_help();
            AppAction::Handled
        },
        ListNav::Unhandled => match action {
            KeyCommand::Reword => {
                if cursor >= groups.len() {
                    return AppAction::Handled;
                }
                let template = match &app.mode {
                    AppMode::AutofixupConfirm(p) => edit_template(&groups[cursor], &p.pairs),
                    _ => String::new(),
                };
                AppAction::PrepareAutofixupEditMessage {
                    target_summary: groups[cursor].target_summary.clone(),
                    template,
                }
            },
            _ => AppAction::Handled,
        },
    }
}

} // verus!
