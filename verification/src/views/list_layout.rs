//! Column widths, scroll offsets and visible hunk-group columns of the
//! commit list, from the size of its table area.

use vstd::prelude::*;
use crate::app::AppState;
use crate::views::commit_list::fragmap_index;

verus! {

/// Width of the SHA column in the commit table.
pub const SHA_COL_WIDTH: u16 = 10;

/// Minimum title column width reserved when computing natural fragmap space.
pub const MIN_TITLE_WIDTH: u16 = 20;

/// Maximum width for the title column, keeping fragmap adjacent to titles.
pub const MAX_TITLE_WIDTH: u16 = 60;

/// Narrowest title the separator can be dragged to.
pub const MIN_DRAGGED_TITLE: i32 = 10;

/// `a - b`, or 0 when `b` is larger.
pub open spec fn monus(a: int, b: int) -> int {
    if a >= b { a - b } else { 0 }
}

/// The smaller of two numbers.
pub open spec fn least(a: int, b: int) -> int {
    if a <= b { a } else { b }
}

/// The larger of two numbers.
pub open spec fn greatest(a: int, b: int) -> int {
    if a >= b { a } else { b }
}

/// Whether the hunk-group columns need a horizontal scrollbar: more of
/// them than fit beside the SHA, a minimal title and the separators.
pub open spec fn scrollbar_needed(frame_width: u16, visible: nat) -> bool {
    visible > 0 && visible > monus(frame_width as int, (SHA_COL_WIDTH + 1 + MIN_TITLE_WIDTH + 1 + 1) as int)
}

/// Whether the hunk-group columns need a horizontal scrollbar row.
pub fn needs_h_scrollbar(frame_width: u16, visible_clusters: usize) -> (b: bool)
    ensures
        b == scrollbar_needed(frame_width, visible_clusters as nat),
{
    let preliminary = frame_width.saturating_sub(SHA_COL_WIDTH + 1 + MIN_TITLE_WIDTH + 1 + 1) as usize;
    visible_clusters > 0 && visible_clusters > preliminary
}

/// Sizes and offsets the commit table is drawn with.
#[derive(Clone, Debug, PartialEq, Eq)]
pub struct ListLayout {
    /// Rows of commits that fit under the header.
    pub available_height: usize,
    pub has_v_scrollbar: bool,
    pub title_width: u16,
    /// Columns left for hunk groups beside SHA and title.
    pub fragmap_available_width: usize,
    /// First visible hunk-group column shown.
    pub h_scroll_offset: usize,
    /// The hunk-group columns shown, left to right.
    pub display_clusters: Vec<usize>,
    pub fragmap_col_width: u16,
    /// Row of the selection in the list as drawn.
    pub visual_selection: usize,
    /// First list row shown.
    pub scroll_offset: usize,
}

/// Table width left once a vertical scrollbar, if any, takes its column.
pub open spec fn effective_width(table_width: u16, has_v: bool) -> int {
    if has_v { monus(table_width as int, 1) } else { table_width as int }
}

/// The title width with no separator offset: whatever fits after the
/// hunk groups take as much room as they can, at most [`MAX_TITLE_WIDTH`].
pub open spec fn natural_title(eff: int, visible: int, scroll: int) -> int {
    let natural_fragmap_w = monus(eff, (SHA_COL_WIDTH + 2 + MIN_TITLE_WIDTH) as int);
    let natural_h_scroll = least(scroll, monus(visible, greatest(natural_fragmap_w, 1)));
    let natural_cols = if visible == 0 { 0 } else { least(natural_h_scroll + natural_fragmap_w, visible) - natural_h_scroll };
    least(monus(eff, SHA_COL_WIDTH + 2 + natural_cols), MAX_TITLE_WIDTH as int)
}

/// The title width once the separator offset is applied, and the offset
/// written back: clamped between [`MIN_DRAGGED_TITLE`] and the widest title
/// that still leaves one column; zero, with the offset reset, when not even
/// the narrowest title fits.
pub open spec fn dragged_title(eff: int, natural: int, offset: i16) -> (int, i16) {
    let max_title = monus(eff, (SHA_COL_WIDTH + 2 + 1) as int);
    if max_title >= MIN_DRAGGED_TITLE {
        let w = if natural + offset < MIN_DRAGGED_TITLE {
            MIN_DRAGGED_TITLE as int
        } else if natural + offset > max_title {
            max_title
        } else {
            natural + offset
        };
        (w, (w - natural) as i16)
    } else {
        (0, 0)
    }
}

/// The first hunk-group column shown: the requested one, pulled back so
/// that a full `room` of columns stays in view.
fn clamped_scroll(scroll: usize, visible: usize, room: usize) -> (h: usize)
    ensures
        h == least(scroll as int, monus(visible as int, greatest(room as int, 1))),
        h <= visible,
{
    let step = if room > 1 { room } else { 1 };
    let limit = visible.saturating_sub(step);
    if scroll < limit { scroll } else { limit }
}

/// The title width with no separator offset.
fn natural_title_width(eff: u16, visible: usize, scroll: usize) -> (t: u16)
    ensures
        t == natural_title(eff as int, visible as int, scroll as int),
{
    let natural_fragmap_w = eff.saturating_sub(SHA_COL_WIDTH + 2 + MIN_TITLE_WIDTH) as usize;
    let natural_h_scroll = clamped_scroll(scroll, visible, natural_fragmap_w);
    let natural_frag_col_w: u16 = if visible == 0 {
        0
    } else {
        let end = if natural_fragmap_w >= visible - natural_h_scroll { visible } else { natural_h_scroll + natural_fragmap_w };
        (end - natural_h_scroll) as u16
    };
    let w = eff.saturating_sub(SHA_COL_WIDTH + 2 + natural_frag_col_w);
    if w < MAX_TITLE_WIDTH { w } else { MAX_TITLE_WIDTH }
}

/// The title width once the separator offset is applied, with the offset
/// to write back.
fn drag_title(eff: u16, natural: u16, offset: i16) -> (r: (u16, i16))
    requires
        natural <= MAX_TITLE_WIDTH,
    ensures
        (r.0 as int, r.1) == dragged_title(eff as int, natural as int, offset),
{
    let max_title = eff.saturating_sub(SHA_COL_WIDTH + 2 + 1) as i32;
    if max_title >= MIN_DRAGGED_TITLE {
        let wanted = natural as i32 + offset as i32;
        let w = if wanted < MIN_DRAGGED_TITLE {
            MIN_DRAGGED_TITLE
        } else if wanted > max_title {
            max_title
        } else {
            wanted
        };
        (w as u16, (w - natural as i32) as i16)
    } else {
        (0, 0)
    }
}

/// The hunk-group columns from `h` on that fit in `room` columns.
fn shown_clusters(visible_clusters: &Vec<usize>, h: usize, room: usize) -> (v: Vec<usize>)
    requires
        h <= visible_clusters@.len(),
    ensures
        v@ == (if visible_clusters@.len() == 0 {
            Seq::empty()
        } else {
            visible_clusters@.subrange(h as int, least(h + room, visible_clusters@.len() as int))
        }),
{
    let visible = visible_clusters.len();
    let mut shown: Vec<usize> = Vec::new();
    if visible == 0 {
        return shown;
    }
    let end = if room >= visible - h { visible } else { h + room };
    let mut i = h;
    while i < end
        invariant
            h <= i <= end <= visible,
            visible == visible_clusters@.len(),
            shown@ == visible_clusters@.subrange(h as int, i as int),
        decreases end - i,
    {
        shown.push(visible_clusters[i]);
        i = i + 1;
    }
    shown
}

/// Compute all layout dimensions, scroll offsets, and the hunk-group
/// columns shown. The separator offset and the hunk-group scroll offset are
/// clamped and written back, so that dragging past a limit takes effect in
/// the other direction without delay.
pub fn compute_layout(app: &mut AppState, table_width: u16, table_height: u16, visible_clusters: &Vec<usize>)
    -> (l: ListLayout)
    ensures
        ({
            let n = old(app).commits@.len();
            let visible = visible_clusters@;
            let ah = monus(table_height as int, 1);
            let has_v = n > 0 && n > ah;
            let eff = effective_width(table_width, has_v);
            let natural = natural_title(eff, visible.len() as int, old(app).fragmap_scroll_offset as int);
            let (title, offset) = dragged_title(eff, natural, old(app).separator_offset);
            let faw = monus(eff, SHA_COL_WIDTH + 2 + title);
            let h = least(old(app).fragmap_scroll_offset as int, monus(visible.len() as int, greatest(faw, 1)));
            let shown = if visible.len() == 0 { Seq::empty() } else { visible.subrange(h, least(h + faw, visible.len() as int)) };
            let sel = old(app).selection_index as int;
            let vs = if old(app).reverse { monus(monus(n as int, 1), sel) } else { sel };
            &&& l.available_height == ah
            &&& l.has_v_scrollbar == has_v
            &&& l.title_width == title
            &&& l.fragmap_available_width == faw
            &&& l.h_scroll_offset == h
            &&& l.display_clusters@ == shown
            &&& l.fragmap_col_width == shown.len()
            &&& l.visual_selection == vs
            &&& l.scroll_offset == (if n == 0 || ah == 0 || vs < ah { 0 } else { vs - (ah - 1) })
            &&& final(app).separator_offset == offset
            &&& final(app).fragmap_scroll_offset == h
        }),
        l.title_width > 0 ==> SHA_COL_WIDTH + 2 + l.title_width + l.fragmap_available_width
            == effective_width(table_width, l.has_v_scrollbar),
        l.fragmap_col_width <= l.fragmap_available_width,
        final(app).mode == old(app).mode,
        final(app).commits == old(app).commits,
        final(app).selection_index == old(app).selection_index,
{
    let n = app.commits.len();
    let available_height = table_height.saturating_sub(1) as usize;
    let has_v_scrollbar = n > 0 && n > available_height;
    let effective_width: u16 = if has_v_scrollbar { table_width.saturating_sub(1) } else { table_width };
    let visible = visible_clusters.len();

    let natural = natural_title_width(effective_width, visible, app.fragmap_scroll_offset);
    let (title_width, offset) = drag_title(effective_width, natural, app.separator_offset);
    app.separator_offset = offset;

    // Hunk-group room follows from the final title width, so SHA, title and
    // hunk groups always add up to the effective width.
    let fragmap_available_width = effective_width.saturating_sub(SHA_COL_WIDTH + 2 + title_width) as usize;
    let h_scroll_offset = clamped_scroll(app.fragmap_scroll_offset, visible, fragmap_available_width);
    app.fragmap_scroll_offset = h_scroll_offset;

    let display_clusters = shown_clusters(visible_clusters, h_scroll_offset, fragmap_available_width);
    let fragmap_col_width = display_clusters.len() as u16;

    let visual_selection = fragmap_index(app, app.selection_index);
    let scroll_offset = if n == 0 || available_height == 0 || visual_selection < available_height {
        0
    } else {
        visual_selection - (available_height - 1)
    };

    ListLayout {
        available_height,
        has_v_scrollbar,
        title_width,
        fragmap_available_width,
        h_scroll_offset,
        display_clusters,
        fragmap_col_width,
        visual_selection,
        scroll_offset,
    }
}

/// Column of the bar between title and hunk groups when the table starts at
/// column `table_x`, or `None` when no hunk-group column is shown.
pub fn fragmap_separator_x(table_x: u16, layout: &ListLayout) -> (x: Option<u16>)
    requires
        layout.fragmap_col_width > 0 ==> table_x + 1 + SHA_COL_WIDTH + 1 + layout.title_width <= u16::MAX,
    ensures
        layout.fragmap_col_width == 0 ==> x is None,
        layout.fragmap_col_width > 0 ==> x == Some(((if layout.has_v_scrollbar { table_x + 1 } else { table_x as int })
            + SHA_COL_WIDTH + 1 + layout.title_width) as u16),
{
    if layout.fragmap_col_width == 0 {
        return None;
    }
    let content_x = if layout.has_v_scrollbar { table_x + 1 } else { table_x };
    Some(content_x + SHA_COL_WIDTH + 1 + layout.title_width)
}

} // verus!
