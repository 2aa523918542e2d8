//! Operation picker dialog: a menu of the operations valid for the selected
//! row — key handling.

use vstd::prelude::*;
use crate::app::{operation_key, operations_for, AppAction, AppMode, AppState, KeyCommand, Operation};
use crate::views::commit_list::{self, list_key_effect, needs_selection};
use crate::scroll::revealing;
use crate::views::list_nav::{handle_list_navigation, list_nav_spec, ListNav};

verus! {

/// Rows above the first operation: blank, heading (blank/content/blank), hint.
pub const HEADER_LINES: usize = 5;

/// The operations offered for the selected row; none without a selection.
pub open spec fn offered(app: AppState) -> Seq<Operation> {
    let sel = app.selection_index;
    if sel < app.commits@.len() {
        operations_for(app.commits@[sel as int].oid is Real, sel + 1 == app.commits@.len())
    } else {
        Seq::empty()
    }
}

/// Position of `op` in `ops`, or 0 when it is not there.
pub open spec fn op_position(ops: Seq<Operation>, op: Operation) -> nat
    decreases ops.len(),
{
    if ops.len() == 0 {
        0
    } else if ops.last() == op && !ops.drop_last().contains(op) {
        (ops.len() - 1) as nat
    } else {
        op_position(ops.drop_last(), op)
    }
}

/// Operations offered for the currently selected row. Empty only if there is
/// no selection at all (in practice every row yields at least undo/redo).
fn available(app: &AppState) -> (v: Vec<Operation>)
    ensures
        v@ == offered(*app),
{
    if app.selection_index < app.commits.len() {
        let is_oldest = app.selected_is_oldest_commit();
        Operation::available_for(&app.commits[app.selection_index].oid, is_oldest)
    } else {
        Vec::new()
    }
}

fn position(ops: &Vec<Operation>, op: Operation) -> (p: usize)
    ensures
        p == op_position(ops@, op),
{
    let mut i: usize = 0;
    while i < ops.len()
        invariant
            i <= ops@.len(),
            forall|j: int| 0 <= j < i ==> ops@[j] != op,
        decreases ops@.len() - i,
    {
        if ops[i] == op {
            proof { lemma_position_first(ops@, op, i as int); }
            return i;
        }
        i = i + 1;
    }
    proof { lemma_position_absent(ops@, op); }
    0
}

proof fn lemma_position_first(ops: Seq<Operation>, op: Operation, i: int)
    requires
        0 <= i < ops.len(),
        ops[i] == op,
        forall|j: int| 0 <= j < i ==> ops[j] != op,
    ensures
        op_position(ops, op) == i,
    decreases ops.len(),
{
    if i < ops.len() - 1 {
        assert(ops.drop_last()[i] == op);
        assert(ops.drop_last().contains(op));
        lemma_position_first(ops.drop_last(), op, i);
    } else {
        assert forall|j: int| 0 <= j < ops.drop_last().len() implies ops.drop_last()[j] != op by {
            assert(ops.drop_last()[j] == ops[j]);
        }
    }
}

proof fn lemma_position_absent(ops: Seq<Operation>, op: Operation)
    requires
        forall|j: int| 0 <= j < ops.len() ==> ops[j] != op,
    ensures
        op_position(ops, op) == 0,
    decreases ops.len(),
{
    if ops.len() > 0 {
        assert(ops.last() == ops[ops.len() - 1]);
        lemma_position_absent(ops.drop_last(), op);
    }
}

fn offers_key(ops: &Vec<Operation>, action: KeyCommand) -> (b: bool)
    ensures
        b == exists|j: int| 0 <= j < ops@.len() && operation_key(#[trigger] ops@[j]) == action,
{
    let mut i: usize = 0;
    while i < ops.len()
        invariant
            i <= ops@.len(),
            forall|j: int| 0 <= j < i ==> operation_key(#[trigger] ops@[j]) != action,
        decreases ops@.len() - i,
    {
        if ops[i].key_command() == action {
            return true;
        }
        i = i + 1;
    }
    false
}

/// Handle an action while in OperationSelect mode.
///
/// Confirming, or pressing the shortcut of an offered operation, closes the
/// picker and hands the operation's key to the commit list, so each
/// operation keeps its single entry point.
pub fn handle_key(action: KeyCommand, app: &mut AppState) -> (r: AppAction)
    requires
        old(app).mode matches AppMode::OperationSelect { operation } ==>
            (needs_selection(operation_key(operation)) ==> old(app).selection_index < old(app).commits@.len()),
    ensures
        !(old(app).mode is OperationSelect) ==> r is Handled && *final(app) == *old(app),
        old(app).mode matches AppMode::OperationSelect { operation } ==> {
            let ops = offered(*old(app));
            let (cursor, nav) = list_nav_spec(action, op_position(ops, operation), ops.len(), ops.len(), false);
            let closed = AppState { mode: AppMode::CommitList, ..*old(app) };
            &&& nav == ListNav::Moved ==> r is Handled && final(app).commits == old(app).commits
                && final(app).selection_index == old(app).selection_index
                && (cursor < ops.len() ==> final(app).mode == (AppMode::OperationSelect { operation: ops[cursor as int] })
                    && final(app).dialog.offset == revealing(old(app).dialog, (HEADER_LINES + cursor) as nat, 1))
                && (cursor >= ops.len() ==> final(app).mode == old(app).mode)
            &&& nav == ListNav::Confirmed ==> list_key_effect(operation_key(operation), closed, *final(app), r)
            &&& nav == ListNav::Cancelled ==> r is Handled && *final(app) == closed
            &&& nav == ListNav::Help ==> r is Handled && final(app).mode == AppMode::Help(Box::new(old(app).mode))
            &&& nav == ListNav::Unhandled && (exists|j: int| 0 <= j < ops.len() && operation_key(#[trigger] ops[j]) == action)
                ==> list_key_effect(action, closed, *final(app), r)
            &&& nav == ListNav::Unhandled && !(exists|j: int| 0 <= j < ops.len() && operation_key(#[trigger] ops[j]) == action)
                ==> r is Handled && *final(app) == *old(app)
        },
{
    let operation = match app.mode {
        AppMode::OperationSelect { operation } => operation,
        _ => return AppAction::Handled,
    };

    let ops = available(app);
    let len = ops.len();
    assert(len <= 8);
    let mut cursor = position(&ops, operation);

    match handle_list_navigation(action, &mut cursor, len, len, false) {
        ListNav::Moved => {
            if cursor < len {
                app.mode = AppMode::OperationSelect { operation: ops[cursor] };
                app.dialog.ensure_visible(HEADER_LINES + cursor, 1);
            }
            AppAction::Handled
        },
        ListNav::Confirmed => {
            app.mode = AppMode::CommitList;
            commit_list::handle_key(operation.key_command(), app)
        },
        ListNav::Cancelled => {
            app.mode = AppMode::CommitList;
            AppAction::Handled
        },
        ListNav::Help => {
            app.toggle_help();
            AppAction::Handled
        },
        ListNav::Unhandled => {
            if offers_key(&ops, action) {
                proof {
                    let j = choose|j: int| 0 <= j < ops@.len() && operation_key(#[trigger] ops@[j]) == action;
                    assert(offered(*old(app)).len() > 0);
                }
                app.mode = AppMode::CommitList;
                commit_list::handle_key(action, app)
            } else {
                AppAction::Handled
            }
        },
    }
}

} // verus!
