//! Which rows the commit list shows: the slice of commits in view, where
//! the move separator goes, and how each row is highlighted.

use vstd::prelude::*;
use crate::app::{AppMode, AppState};
use crate::views::commit_list::fragmap_index;

verus! {

/// How a commit row is highlighted.
#[derive(Clone, Copy, Debug, PartialEq, Eq, Structural)]
pub enum RowHighlight {
    /// The commit being squashed or moved (teal background).
    Source,
    /// The selected squash target (target tint, reversed).
    Target,
    /// The selected row outside the pick modes (reversed).
    Selected,
    /// No highlight.
    Plain,
}

/// One row of the table.
#[derive(Clone, Copy, Debug, PartialEq, Eq, Structural)]
pub enum RowPlan {
    /// The move separator, showing where the commit at `source_index` lands.
    Separator { source_index: usize },
    /// The commit at `index` (in fragmap order), shown at `visual_index`.
    Commit { index: usize, visual_index: usize, highlight: RowHighlight },
}

/// The commit row shown at `visual` in a list of `n` rows.
pub open spec fn row_index(n: nat, reverse: bool, visual: nat) -> nat {
    if !reverse { visual } else if n >= 1 + visual { (n - 1 - visual) as nat } else { 0 }
}

/// The insertion point of a move that would change something, if any.
pub open spec fn live_insert(mode: AppMode) -> Option<(usize, usize)> {
    match mode {
        AppMode::MoveSelect { source_index, insert_before } =>
            if insert_before != source_index && insert_before != source_index + 1 {
                Some((source_index, insert_before))
            } else {
                None
            },
        _ => None,
    }
}

/// The number of commits in view: a visible move separator takes one row.
pub open spec fn rows_in_view(mode: AppMode, n: nat, scroll: nat, avail: nat) -> nat {
    let sep = match live_insert(mode) {
        Some((_, p)) => scroll <= p && p <= (if scroll + avail <= n { scroll + avail } else { n }),
        None => false,
    };
    let height: nat = if sep { if avail >= 1 { (avail - 1) as nat } else { 0 } } else { avail };
    let end: nat = if scroll + height <= n { scroll + height } else { n };
    if n == 0 { 0 } else { (end - scroll) as nat }
}

/// The highlight of the row of commit `idx` shown at `visual`.
pub open spec fn highlight_of(mode: AppMode, idx: nat, visual: nat, selected_visual: nat) -> RowHighlight {
    let selected = visual == selected_visual;
    match mode {
        AppMode::SquashSelect { source_index, .. } =>
            if idx == source_index { RowHighlight::Source } else if selected { RowHighlight::Target } else { RowHighlight::Plain },
        AppMode::MoveSelect { source_index, .. } =>
            if idx == source_index { RowHighlight::Source } else { RowHighlight::Plain },
        _ => if selected { RowHighlight::Selected } else { RowHighlight::Plain },
    }
}

/// The rows for the `j`-th commit in view: the separator first when the
/// move lands before it, then the commit.
pub open spec fn rows_for(app: AppState, scroll: nat, selected_visual: nat, j: nat) -> Seq<RowPlan> {
    let visual = scroll + j;
    let idx = row_index(app.commits@.len(), app.reverse, visual);
    let commit = RowPlan::Commit {
        index: idx as usize,
        visual_index: visual as usize,
        highlight: highlight_of(app.mode, idx, visual, selected_visual),
    };
    match live_insert(app.mode) {
        Some((s, p)) => if idx == p { seq![RowPlan::Separator { source_index: s }, commit] } else { seq![commit] },
        None => seq![commit],
    }
}

/// The rows for the first `k` commits in view.
pub open spec fn rows_upto(app: AppState, scroll: nat, selected_visual: nat, k: nat) -> Seq<RowPlan>
    decreases k,
{
    if k == 0 {
        Seq::empty()
    } else {
        rows_upto(app, scroll, selected_visual, (k - 1) as nat) + rows_for(app, scroll, selected_visual, (k - 1) as nat)
    }
}

/// The table rows of the commit list scrolled to `scroll_offset`, with
/// `available_height` rows of room and the selection drawn at
/// `visual_selection`.
pub fn build_rows(app: &AppState, scroll_offset: usize, available_height: usize, visual_selection: usize)
    -> (rows: Vec<RowPlan>)
    requires
        app.commits@.len() == 0 || scroll_offset <= app.commits@.len(),
        scroll_offset + available_height <= usize::MAX,
    ensures
        rows@ == rows_upto(*app, scroll_offset as nat, visual_selection as nat,
            rows_in_view(app.mode, app.commits@.len(), scroll_offset as nat, available_height as nat)),
{
    let n = app.commits.len();
    let live: Option<(usize, usize)> = match app.mode {
        AppMode::MoveSelect { source_index, insert_before } =>
            if insert_before != source_index && (source_index == usize::MAX || insert_before != source_index + 1) {
                Some((source_index, insert_before))
            } else {
                None
            },
        _ => None,
    };
    let count: usize = if n == 0 {
        0
    } else {
        let vis_end = if scroll_offset + available_height <= n { scroll_offset + available_height } else { n };
        let sep = match live {
            Some((_, p)) => scroll_offset <= p && p <= vis_end,
            None => false,
        };
        let height = if sep { available_height.saturating_sub(1) } else { available_height };
        let end = if scroll_offset + height <= n { scroll_offset + height } else { n };
        end - scroll_offset
    };
    let squash_source: Option<usize> = match app.mode {
        AppMode::SquashSelect { source_index, .. } => Some(source_index),
        _ => None,
    };
    let move_source: Option<usize> = match app.mode {
        AppMode::MoveSelect { source_index, .. } => Some(source_index),
        _ => None,
    };
    let mut rows: Vec<RowPlan> = Vec::new();
    let mut j: usize = 0;
    while j < count
        invariant
            count == rows_in_view(app.mode, n as nat, scroll_offset as nat, available_height as nat),
            n == app.commits@.len(),
            count <= n,
            app.commits@.len() == 0 || scroll_offset <= app.commits@.len(),
            n == 0 || scroll_offset + count <= n,
            live == live_insert(app.mode),
            squash_source == (match app.mode { AppMode::SquashSelect { source_index, .. } => Some(source_index), _ => None::<usize> }),
            move_source == (match app.mode { AppMode::MoveSelect { source_index, .. } => Some(source_index), _ => None::<usize> }),
            j <= count,
            rows@ == rows_upto(*app, scroll_offset as nat, visual_selection as nat, j as nat),
        decreases count - j,
    {
        let visual = scroll_offset + j;
        let idx = fragmap_index(app, visual);
        if let Some((s, p)) = live {
            if idx == p {
                rows.push(RowPlan::Separator { source_index: s });
            }
        }
        let selected = visual == visual_selection;
        let highlight = match (squash_source, move_source) {
            (Some(s), _) => if idx == s { RowHighlight::Source } else if selected { RowHighlight::Target } else { RowHighlight::Plain },
            (_, Some(s)) => if idx == s { RowHighlight::Source } else { RowHighlight::Plain },
            _ => if selected { RowHighlight::Selected } else { RowHighlight::Plain },
        };
        rows.push(RowPlan::Commit { index: idx, visual_index: visual, highlight });
        assert(rows@ =~= rows_upto(*app, scroll_offset as nat, visual_selection as nat, (j + 1) as nat));
        j = j + 1;
    }
    rows
}

} // verus!
