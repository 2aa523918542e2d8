//! Move commit target selection — key handling; the commit list renders the
//! insertion separator.

use vstd::prelude::*;
use crate::app::{mirrored, AppAction, AppMode, AppState, KeyCommand};
use crate::scroll::{page_rows, page_size};

verus! {

/// Whether inserting before `p` would leave the source where it is.
pub open spec fn is_noop(p: nat, source_index: nat) -> bool {
    p == source_index || p == source_index + 1
}

/// One move of the insertion cursor: `step` toward lower indices when `up`,
/// else toward higher ones (not past `max`).
pub open spec fn shift(p: nat, max: nat, step: nat, up: bool) -> nat {
    if up {
        if p >= step { (p - step) as nat } else { 0 }
    } else if p + step <= max {
        p + step
    } else {
        max
    }
}

/// Where the insertion cursor lands: moved by `step`, then past up to two
/// no-op slots one at a time; if still on a no-op slot, it stays at `pos`.
pub open spec fn advanced_insert(pos: nat, source_index: nat, max: nat, step: nat, up: bool) -> nat {
    let n0 = shift(pos, max, step, up);
    let n1 = if is_noop(n0, source_index) { shift(n0, max, 1, up) } else { n0 };
    let n2 = if is_noop(n1, source_index) { shift(n1, max, 1, up) } else { n1 };
    if is_noop(n2, source_index) { pos } else { n2 }
}

/// Advance the insertion cursor by `step` positions, skipping the two no-op
/// slots (source_index and source_index + 1). `up` means toward lower
/// indices; the caller has already resolved the display order.
pub fn advance_insert(pos: usize, source_index: usize, max: usize, step: usize, up: bool) -> (r: usize)
    requires
        source_index < usize::MAX,
    ensures
        r == advanced_insert(pos as nat, source_index as nat, max as nat, step as nat, up),
        r <= max || r <= pos,
{
    let mut next = if up {
        pos.saturating_sub(step)
    } else if pos <= max && step <= max - pos {
        pos + step
    } else {
        max
    };

    // Skip noop positions (at most two consecutive: source and source+1)
    let mut round: usize = 0;
    while round < 2
        invariant
            round <= 2,
            next <= max || next <= pos,
            source_index < usize::MAX,
            round == 0 ==> next == shift(pos as nat, max as nat, step as nat, up),
            round == 1 ==> next == ({
                let n0 = shift(pos as nat, max as nat, step as nat, up);
                if is_noop(n0, source_index as nat) { shift(n0, max as nat, 1, up) } else { n0 }
            }),
            round == 2 ==> next == ({
                let n0 = shift(pos as nat, max as nat, step as nat, up);
                let n1 = if is_noop(n0, source_index as nat) { shift(n0, max as nat, 1, up) } else { n0 };
                if is_noop(n1, source_index as nat) { shift(n1, max as nat, 1, up) } else { n1 }
            }),
        decreases 2 - round,
    {
        if next == source_index || next == source_index + 1 {
            next = if up {
                next.saturating_sub(1)
            } else if next < max {
                next + 1
            } else {
                max
            };
        }
        round = round + 1;
    }

    // If still on a noop, no valid move exists — stay put
    if next == source_index || next == source_index + 1 { pos } else { next }
}

/// The insertion cursor either stays put or lands on a real move slot, never
/// past the larger of `max` and where it started (so within `0..=max` when
/// it started there).
pub proof fn lemma_advance_insert_valid(pos: nat, source_index: nat, max: nat, step: nat, up: bool)
    ensures
        advanced_insert(pos, source_index, max, step, up) == pos || (
            !is_noop(advanced_insert(pos, source_index, max, step, up), source_index)
            && (advanced_insert(pos, source_index, max, step, up) <= max
                || advanced_insert(pos, source_index, max, step, up) <= pos)),
        pos <= max ==> advanced_insert(pos, source_index, max, step, up) <= max,
{
}

/// Inserting before slot `q` actually moves the commit at `s`: `q` is
/// neither its own slot nor the one just after it.
pub open spec fn moves_to(q: nat, s: nat) -> bool {
    q != s && q != s + 1
}

/// Where the insertion cursor goes: from the slot `step` away in the
/// direction of travel (clamped to `0..=max`), it moves to the nearest slot
/// at most two further on that is not one of the two no-op slots around
/// the source (`source_index` and `source_index + 1`); only when there is
/// none does it stay at `pos`.
pub proof fn lemma_advance_insert_nearest_slot(pos: nat, source_index: nat, max: nat, step: nat, up: bool)
    ensures
        ({
            let r = advanced_insert(pos, source_index, max, step, up);
            let s = source_index;
            &&& !up ==> {
                let n0: nat = if pos + step <= max { pos + step } else { max };
                &&& (exists|q: nat| n0 <= q <= max && q <= n0 + 2 && #[trigger] moves_to(q, s)) ==> {
                    &&& n0 <= r <= max && r <= n0 + 2 && r != s && r != s + 1
                    &&& forall|q: nat| n0 <= q < r ==> !#[trigger] moves_to(q, s)
                }
                &&& !(exists|q: nat| n0 <= q <= max && q <= n0 + 2 && #[trigger] moves_to(q, s)) ==> r == pos
            }
            &&& up ==> {
                let n0: nat = if pos >= step { (pos - step) as nat } else { 0 };
                &&& (exists|q: nat| q <= n0 && n0 <= q + 2 && #[trigger] moves_to(q, s)) ==> {
                    &&& r <= n0 && n0 <= r + 2 && r != s && r != s + 1
                    &&& forall|q: nat| r < q <= n0 ==> !#[trigger] moves_to(q, s)
                }
                &&& !(exists|q: nat| q <= n0 && n0 <= q + 2 && #[trigger] moves_to(q, s)) ==> r == pos
            }
        }),
{
    let s = source_index;
    if !up {
        let n0: nat = if pos + step <= max { pos + step } else { max };
        assert(shift(pos, max, step, up) == n0);
        if !(exists|q: nat| n0 <= q <= max && q <= n0 + 2 && #[trigger] moves_to(q, s)) {
            assert(!moves_to(n0, s));
            if n0 + 1 <= max {
                assert(!moves_to(n0 + 1, s));
            }
            if n0 + 2 <= max {
                assert(!moves_to(n0 + 2, s));
            }
        }
    } else {
        let n0: nat = if pos >= step { (pos - step) as nat } else { 0 };
        assert(shift(pos, max, step, up) == n0);
        if !(exists|q: nat| q <= n0 && n0 <= q + 2 && #[trigger] moves_to(q, s)) {
            assert(!moves_to(n0, s));
            if n0 >= 1 {
                assert(!moves_to((n0 - 1) as nat, s));
            }
            if n0 >= 2 {
                assert(!moves_to((n0 - 2) as nat, s));
            }
        }
    }
}

/// The `selection_index` that keeps the move separator visible: one
/// logical step below the separator in visual terms.
pub open spec fn separator_selection(insert_before: nat, reverse: bool) -> nat {
    if reverse {
        if insert_before >= 1 { (insert_before - 1) as nat } else { 0 }
    } else {
        insert_before + 1
    }
}

/// Compute the `selection_index` value that keeps the move separator visible.
///
/// The returned value may equal `commits.len()` when `insert_before` is the
/// last commit index; the footer renderer guards against it.
pub fn viewport_selection_for_separator(insert_before: usize, reverse: bool) -> (r: usize)
    requires
        insert_before < usize::MAX,
    ensures
        r == separator_selection(insert_before as nat, reverse),
{
    if reverse {
        insert_before.saturating_sub(1)
    } else {
        insert_before + 1
    }
}

/// Handle an action while in MoveSelect mode.
///
/// The user navigates an insertion cursor between commits. The cursor
/// (`insert_before`) represents the position where the source commit will
/// be placed. Arrow keys move the insertion point; Enter confirms; Esc
/// cancels.
pub fn handle_key(action: KeyCommand, app: &mut AppState) -> (r: AppAction)
    requires
        old(app).commits@.len() < usize::MAX,
        old(app).mode matches AppMode::MoveSelect { source_index, insert_before } ==> {
            &&& (action == KeyCommand::MoveUp || action == KeyCommand::MoveDown || action == KeyCommand::PageUp
                || action == KeyCommand::PageDown) ==> source_index < usize::MAX && insert_before < usize::MAX
            &&& action == KeyCommand::Confirm ==> source_index < usize::MAX
                && (!is_noop(insert_before as nat, source_index as nat) ==> source_index < old(app).commits@.len())
        },
    ensures
        final(app).commits == old(app).commits,
        !(old(app).mode is MoveSelect) ==> r is Handled && *final(app) == *old(app),
        old(app).mode matches AppMode::MoveSelect { source_index, insert_before } ==> {
            let len = old(app).commits@.len();
            let m = mirrored(action, old(app).reverse);
            let page = page_rows(old(app).commit_list_visible_height as nat);
            let step: nat = if m == KeyCommand::MoveUp || m == KeyCommand::MoveDown { 1 } else { page };
            let up = m == KeyCommand::MoveUp || m == KeyCommand::PageUp;
            let next = advanced_insert(insert_before as nat, source_index as nat, len, step, up);
            let source = old(app).commits@[source_index as int];
            &&& (m == KeyCommand::MoveUp || m == KeyCommand::MoveDown || m == KeyCommand::PageUp
                || m == KeyCommand::PageDown) ==> r is Handled
                && final(app).mode == (AppMode::MoveSelect { source_index, insert_before: next as usize })
                && final(app).selection_index == separator_selection(next, old(app).reverse)
            &&& !(m == KeyCommand::MoveUp || m == KeyCommand::MoveDown || m == KeyCommand::PageUp
                || m == KeyCommand::PageDown) ==> {
                &&& action == KeyCommand::Confirm && is_noop(insert_before as nat, source_index as nat) ==> r is Handled
                    && final(app).mode == old(app).mode && final(app).status_is_error
                    && (final(app).status_message matches Some(s) && s@ == "Commit is already at this position"@)
                &&& action == KeyCommand::Confirm && !is_noop(insert_before as nat, source_index as nat)
                    && !(source.oid is Real) ==> r is Handled && final(app).mode == old(app).mode
                    && final(app).status_is_error
                    && (final(app).status_message matches Some(s) && s@ == "Cannot move staged/unstaged changes"@)
                &&& action == KeyCommand::Confirm && !is_noop(insert_before as nat, source_index as nat)
                    && source.oid is Real ==> final(app).mode is CommitList
                    && final(app).selection_index == source_index
                    && (r matches AppAction::ExecuteMove { source_oid, insert_after_oid }
                        && source_oid@ == source.oid->Real_0@
                        && (insert_before == 0 && old(app).include_reference_oid ==> insert_after_oid is None)
                        && (insert_before == 0 && !old(app).include_reference_oid ==>
                            (insert_after_oid matches Some(o) && o@ == old(app).reference_oid@))
                        && (insert_before > 0 ==> ({
                            let prev = old(app).commits@[if insert_before <= len { insert_before - 1 } else { len - 1 }];
                            &&& insert_after_oid is Some <==> prev.oid is Real
                            &&& insert_after_oid matches Some(o) ==> o@ == prev.oid->Real_0@
                        })))
                &&& action == KeyCommand::ShowHelp ==> r is Handled
                    && final(app).mode == AppMode::Help(Box::new(old(app).mode))
                &&& action == KeyCommand::Quit ==> r is Handled && final(app).mode is CommitList
                    && final(app).selection_index == source_index
                &&& !(action == KeyCommand::Confirm || action == KeyCommand::ShowHelp || action == KeyCommand::Quit)
                    ==> r is Handled && *final(app) == *old(app)
            }
        },
{
    let (source_index, insert_before) = match app.mode {
        AppMode::MoveSelect { source_index, insert_before } => (source_index, insert_before),
        _ => return AppAction::Handled,
    };

    let max_insert = app.commits.len();
    let page_size = page_size(app.commit_list_visible_height);

    // Resolve the display order once; below, `up` means "toward older commits".
    let nav = match action.with_vertical_mirroring(app.reverse) {
        KeyCommand::MoveUp => Some((1, true)),
        KeyCommand::MoveDown => Some((1, false)),
        KeyCommand::PageUp => Some((page_size, true)),
        KeyCommand::PageDown => Some((page_size, false)),
        _ => None,
    };
    if let Some((step, up)) = nav {
        let next = advance_insert(insert_before, source_index, max_insert, step, up);
        app.mode = AppMode::MoveSelect { source_index, insert_before: next };
        app.selection_index = viewport_selection_for_separator(next, app.reverse);
        return AppAction::Handled;
    }

    match action {
        KeyCommand::Confirm => {
            if insert_before == source_index || insert_before == source_index + 1 {
                app.set_error_message(String::from_str("Commit is already at this position"));
                return AppAction::Handled;
            }

            if app.commits[source_index].oid.is_synthetic() {
                app.set_error_message(String::from_str("Cannot move staged/unstaged changes"));
                return AppAction::Handled;
            }

            // insert_before is the commit-list index where the separator sits.
            // The source should be placed *after* the commit at insert_before - 1.
            let source_oid = app.commits[source_index].oid.expect_real_oid();
            let insert_after_oid = if insert_before == 0 {
                // In --all mode the reference commit (root) is itself a visible
                // entry. Moving before position 0 means "make this the new root";
                // signal that with None sentinel to move_commit.
                if app.include_reference_oid {
                    None
                } else {
                    Some(app.reference_oid.duplicate())
                }
            } else {
                let last = app.commits.len() - 1;
                let idx = if insert_before - 1 <= last { insert_before - 1 } else { last };
                app.commits[idx].oid.as_oid()
            };

            // Navigation left `selection_index` as a scroll anchor that can point
            // past the last commit; restore it to a valid index before leaving.
            app.selection_index = source_index;
            app.mode = AppMode::CommitList;

            AppAction::ExecuteMove { source_oid, insert_after_oid }
        },
        KeyCommand::ShowHelp => {
            app.toggle_help();
            AppAction::Handled
        },
        KeyCommand::Quit => {
            app.cancel_move_select();
            AppAction::Handled
        },
        _ => AppAction::Handled,
    }
}

} // verus!
