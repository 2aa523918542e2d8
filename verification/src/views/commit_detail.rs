//! Commit detail view — key handling and the file status column.

use vstd::prelude::*;
use crate::app::{AppAction, AppMode, AppState, KeyCommand, MAX_CONTEXT_LINES};
use crate::diff::{DeltaStatus, FileDiff};
use crate::palette::Color;
use crate::scroll::{half_page_rows, min_int, page_rows, ScrollState};
use crate::text::{decimal, push_char, push_decimal};
use crate::app::DetailState;
use crate::views::commit_list::{separator_left, separator_moved_left, separator_moved_right, separator_right};
use crate::views::search::{next_match, prev_match, next_match_spec, at_current_match, SearchDirection};

verus! {

/// File status indicator for changed files.
#[derive(Clone, Copy, Debug, PartialEq, Eq, Structural)]
pub enum FileStatus {
    Added,
    Modified,
    Deleted,
    Renamed,
}

/// The vertical offset of the detail pane after `action`.
pub open spec fn v_offset_after(action: KeyCommand, v: ScrollState) -> int {
    let o = v.offset as int;
    match action {
        KeyCommand::MoveUp => if o > 0 { o - 1 } else { 0 },
        KeyCommand::MoveDown => min_int(o + 1, v.max as int),
        KeyCommand::PageUp => if o >= page_rows(v.visible_height as nat) { o - page_rows(v.visible_height as nat) } else { 0 },
        KeyCommand::PageDown => min_int(o + page_rows(v.visible_height as nat), v.max as int),
        KeyCommand::HalfPageUp => if o >= half_page_rows(v.visible_height as nat) {
            o - half_page_rows(v.visible_height as nat)
        } else {
            0
        },
        KeyCommand::HalfPageDown => min_int(o + half_page_rows(v.visible_height as nat), v.max as int),
        KeyCommand::JumpToTop => 0,
        KeyCommand::JumpToBottom => v.max as int,
        _ => o,
    }
}

/// The horizontal offset of the detail pane after `action`.
pub open spec fn h_offset_after(action: KeyCommand, h: ScrollState) -> int {
    let o = h.offset as int;
    match action {
        KeyCommand::ScrollLeft => if o > 0 { o - 1 } else { 0 },
        KeyCommand::ScrollRight => min_int(o + 1, h.max as int),
        KeyCommand::ScrollToLeftEdge => 0,
        KeyCommand::ScrollToRightEdge => h.max as int,
        _ => o,
    }
}

/// Commands that only scroll the detail pane.
pub open spec fn scrolls_pane(action: KeyCommand) -> bool {
    action == KeyCommand::MoveUp || action == KeyCommand::MoveDown || action == KeyCommand::PageUp
        || action == KeyCommand::PageDown || action == KeyCommand::HalfPageUp || action == KeyCommand::HalfPageDown
        || action == KeyCommand::JumpToTop || action == KeyCommand::JumpToBottom || action == KeyCommand::ScrollLeft
        || action == KeyCommand::ScrollRight || action == KeyCommand::ScrollToLeftEdge
        || action == KeyCommand::ScrollToRightEdge
}

/// Commands the detail view does nothing with.
pub open spec fn detail_ignores(action: KeyCommand) -> bool {
    !scrolls_pane(action) && !(action == KeyCommand::NavFileNext || action == KeyCommand::NavFilePrev
        || action == KeyCommand::ToggleDetail || action == KeyCommand::Confirm || action == KeyCommand::ShowHelp
        || action == KeyCommand::Search || action == KeyCommand::SearchNext || action == KeyCommand::SearchPrev
        || action == KeyCommand::IncreaseContext || action == KeyCommand::DecreaseContext
        || action == KeyCommand::Refresh || action == KeyCommand::Quit || action == KeyCommand::SeparatorLeft
        || action == KeyCommand::SeparatorRight)
}

/// Handle an action while in CommitDetail mode.
pub fn handle_key(action: KeyCommand, app: &mut AppState) -> (r: AppAction)
    requires
        action == KeyCommand::SearchNext ==> (old(app).search.match_index matches Some(i) ==> i < usize::MAX),
    ensures
        final(app).commits == old(app).commits,
        final(app).selection_index == old(app).selection_index,
        action != KeyCommand::Refresh ==> r is Handled,
        scrolls_pane(action) ==> final(app).detail.v.offset == v_offset_after(action, old(app).detail.v)
            && final(app).detail.h.offset == h_offset_after(action, old(app).detail.h)
            && final(app).detail.v.max == old(app).detail.v.max && final(app).detail.h.max == old(app).detail.h.max
            && final(app).detail.context_lines == old(app).detail.context_lines
            && final(app).mode == old(app).mode && final(app).search == old(app).search,
        action == KeyCommand::NavFileNext ==> final(app).mode == old(app).mode && ({
            let starts = old(app).detail.file_start_lines@;
            let v = old(app).detail.v;
            &&& (forall|i: int| 0 <= i < starts.len() ==> #[trigger] starts[i] <= v.offset)
                ==> final(app).detail.v.offset == v.offset
            &&& forall|i: int| 0 <= i < starts.len() && #[trigger] starts[i] > v.offset
                && (forall|j: int| 0 <= j < i ==> starts[j] <= v.offset)
                ==> final(app).detail.v.offset == min_int(starts[i] as int, v.max as int)
        }),
        action == KeyCommand::NavFilePrev ==> final(app).mode == old(app).mode && ({
            let starts = old(app).detail.file_start_lines@;
            let v = old(app).detail.v;
            &&& (forall|i: int| 0 <= i < starts.len() ==> #[trigger] starts[i] >= v.offset)
                ==> final(app).detail.v.offset == v.offset
            &&& forall|i: int| 0 <= i < starts.len() && #[trigger] starts[i] < v.offset
                && (forall|j: int| i < j < starts.len() ==> starts[j] >= v.offset)
                ==> final(app).detail.v.offset == min_int(starts[i] as int, v.max as int)
        }),
        action == KeyCommand::ToggleDetail || action == KeyCommand::Confirm ==>
            (old(app).mode is CommitList ==> final(app).mode is CommitDetail)
            && (old(app).mode is CommitDetail ==> final(app).mode is CommitList)
            && (!(old(app).mode is CommitList) && !(old(app).mode is CommitDetail) ==> final(app).mode == old(app).mode),
        action == KeyCommand::ShowHelp ==>
            (!(old(app).mode is Help) ==> final(app).mode == AppMode::Help(Box::new(old(app).mode))
                && final(app).dialog.offset == 0)
            && (old(app).mode matches AppMode::Help(prev) ==> final(app).mode == *prev),
        action == KeyCommand::Search ==> final(app).search.active && final(app).search.input_active
            && final(app).search.query@.len() == 0 && final(app).search.matches@.len() == 0
            && final(app).search.match_index is None && final(app).mode == old(app).mode,
        action == KeyCommand::SearchNext || action == KeyCommand::SearchPrev ==> final(app).mode == old(app).mode && ({
            let s = old(app).search;
            let dir = if action == KeyCommand::SearchNext { SearchDirection::Next } else { SearchDirection::Prev };
            &&& !s.active || s.matches@.len() == 0 ==> *final(app) == *old(app)
            &&& s.active && s.matches@.len() > 0 ==> {
                let k = next_match_spec(s.match_index, s.matches@.len(), dir);
                &&& final(app).search.match_index == Some(k as usize)
                &&& final(app).detail.v.offset == at_current_match(old(app).detail.v, s.matches@, Some(k as usize))
            }
        }),
        action == KeyCommand::IncreaseContext ==> final(app).mode == old(app).mode
            && final(app).detail.context_lines == (if old(app).detail.context_lines < MAX_CONTEXT_LINES {
                old(app).detail.context_lines + 1
            } else {
                old(app).detail.context_lines as int
            }),
        action == KeyCommand::DecreaseContext ==> final(app).mode == old(app).mode
            && final(app).detail.context_lines == (if old(app).detail.context_lines > 0 {
                old(app).detail.context_lines - 1
            } else {
                0
            }),
        action == KeyCommand::Refresh ==> r is ReloadCommits && *final(app) == *old(app),
        action == KeyCommand::Quit && old(app).search.active ==> final(app).mode == old(app).mode
            && !final(app).search.active && final(app).search.query@.len() == 0
            && final(app).search.matches@.len() == 0 && final(app).search.match_index is None,
        action == KeyCommand::Quit && !old(app).search.active ==>
            (old(app).mode is CommitDetail ==> final(app).mode is CommitList)
            && (old(app).mode is CommitList ==> final(app).mode is CommitDetail)
            && (!(old(app).mode is CommitList) && !(old(app).mode is CommitDetail) ==> final(app).mode == old(app).mode),
        action == KeyCommand::SeparatorLeft ==> final(app).mode == old(app).mode
            && final(app).separator_offset == separator_left(old(app).separator_offset),
        action == KeyCommand::SeparatorRight ==> final(app).mode == old(app).mode
            && final(app).separator_offset == separator_right(old(app).separator_offset),
        detail_ignores(action) ==> *final(app) == *old(app),
{
    match action {
        KeyCommand::MoveUp => {
            app.detail.v.step_back();
            AppAction::Handled
        },
        KeyCommand::MoveDown => {
            app.detail.v.step_forward();
            AppAction::Handled
        },
        KeyCommand::PageUp => {
            app.detail.v.page_back();
            AppAction::Handled
        },
        KeyCommand::PageDown => {
            app.detail.v.page_forward();
            AppAction::Handled
        },
        KeyCommand::HalfPageUp => {
            app.detail.v.half_page_back();
            AppAction::Handled
        },
        KeyCommand::HalfPageDown => {
            app.detail.v.half_page_forward();
            AppAction::Handled
        },
        KeyCommand::JumpToTop => {
            app.detail.v.to_start();
            AppAction::Handled
        },
        KeyCommand::JumpToBottom => {
            app.detail.v.to_end();
            AppAction::Handled
        },
        KeyCommand::ScrollLeft => {
            app.detail.h.step_back();
            AppAction::Handled
        },
        KeyCommand::ScrollRight => {
            app.detail.h.step_forward();
            AppAction::Handled
        },
        KeyCommand::ScrollToLeftEdge => {
            app.detail.h.to_start();
            AppAction::Handled
        },
        KeyCommand::ScrollToRightEdge => {
            app.detail.h.to_end();
            AppAction::Handled
        },
        KeyCommand::NavFileNext => {
            app.detail.jump_to_next_file();
            AppAction::Handled
        },
        KeyCommand::NavFilePrev => {
            app.detail.jump_to_prev_file();
            AppAction::Handled
        },
        KeyCommand::ToggleDetail | KeyCommand::Confirm => {
            app.toggle_detail_view();
            AppAction::Handled
        },
        KeyCommand::ShowHelp => {
            app.toggle_help();
            AppAction::Handled
        },
        KeyCommand::Search => {
            app.search.activate();
            AppAction::Handled
        },
        KeyCommand::SearchNext => {
            next_match(app);
            AppAction::Handled
        },
        KeyCommand::SearchPrev => {
            prev_match(app);
            AppAction::Handled
        },
        KeyCommand::IncreaseContext => {
            app.detail.increase_context_lines();
            AppAction::Handled
        },
        KeyCommand::DecreaseContext => {
            app.detail.decrease_context_lines();
            AppAction::Handled
        },
        KeyCommand::Refresh => AppAction::ReloadCommits,
        KeyCommand::Quit => {
            if app.search.active {
                app.search.clear();
            } else {
                app.toggle_detail_view();
            }
            AppAction::Handled
        },
        KeyCommand::SeparatorLeft => {
            app.separator_offset = separator_moved_left(app.separator_offset);
            AppAction::Handled
        },
        KeyCommand::SeparatorRight => {
            app.separator_offset = separator_moved_right(app.separator_offset);
            AppAction::Handled
        },
        _ => AppAction::Handled,
    }
}

/// A rectangle of terminal cells.
#[derive(Clone, Copy, Debug, PartialEq, Eq, Structural)]
pub struct Area {
    pub x: u16,
    pub y: u16,
    pub width: u16,
    pub height: u16,
}

/// Geometry of the detail pane's content and scrollbars.
#[derive(Clone, Copy, Debug, PartialEq, Eq, Structural)]
pub struct ScrollLayout {
    pub text_area: Area,
    pub v_scrollbar_area: Area,
    pub h_scrollbar_area: Area,
    pub total_lines: usize,
    pub max_line_width: usize,
    pub text_area_width: usize,
    pub visible_height: usize,
    pub max_scroll: usize,
    pub max_h_scroll: usize,
}

/// The widest of the first `n` line widths (0 for none).
pub open spec fn widest(ws: Seq<usize>, n: int) -> nat
    decreases n,
{
    if n <= 0 {
        0
    } else {
        let w = widest(ws, n - 1);
        if ws[n - 1] > w { ws[n - 1] as nat } else { w }
    }
}

/// `a - b`, or 0 when `b` is larger.
pub open spec fn sub_or_zero(a: int, b: int) -> int {
    if a >= b { a - b } else { 0 }
}

/// The layout of a content area showing lines of the given widths: a
/// horizontal scrollbar row when the widest line does not fit beside a
/// vertical scrollbar that the line count alone would call for; a vertical
/// scrollbar column when the lines overflow the rows left above it.
pub open spec fn scroll_layout_of(a: Area, widths: Seq<usize>) -> ScrollLayout {
    let total = widths.len();
    let widest_line = widest(widths, total as int);
    let tentative: int = if total > a.height { 1 } else { 0 };
    let text_w = sub_or_zero(a.width as int, tentative);
    let max_h = sub_or_zero(widest_line as int, text_w);
    let hh: int = if max_h > 0 { 1 } else { 0 };
    let vh = sub_or_zero(a.height as int, hh);
    let max_v = sub_or_zero(total as int, vh);
    let vw: int = if max_v > 0 { 1 } else { 0 };
    ScrollLayout {
        text_area: Area { x: (a.x + vw) as u16, y: a.y, width: sub_or_zero(a.width as int, vw) as u16, height: vh as u16 },
        v_scrollbar_area: Area { x: a.x, y: a.y, width: vw as u16, height: vh as u16 },
        h_scrollbar_area: Area { x: (a.x + vw) as u16, y: (a.y + vh) as u16, width: sub_or_zero(a.width as int, vw) as u16,
            height: hh as u16 },
        total_lines: total as usize,
        max_line_width: widest_line as usize,
        text_area_width: text_w as usize,
        visible_height: vh as usize,
        max_scroll: max_v as usize,
        max_h_scroll: max_h as usize,
    }
}

fn widest_line(widths: &Vec<usize>) -> (w: usize)
    ensures
        w == widest(widths@, widths@.len() as int),
{
    let mut w: usize = 0;
    let mut i: usize = 0;
    while i < widths.len()
        invariant
            i <= widths@.len(),
            w == widest(widths@, i as int),
        decreases widths@.len() - i,
    {
        if widths[i] > w {
            w = widths[i];
        }
        i = i + 1;
    }
    w
}

/// Compute scroll geometry for the content area given the widths of the
/// content lines.
pub fn compute_scroll_layout(content_area: Area, line_widths: &Vec<usize>) -> (l: ScrollLayout)
    requires
        content_area.x < u16::MAX,
        content_area.y + content_area.height <= u16::MAX,
    ensures
        l == scroll_layout_of(content_area, line_widths@),
{
    let max_line_width = widest_line(line_widths);
    let total_lines = line_widths.len();
    let v_scrollbar_width_tentative: u16 = if total_lines > content_area.height as usize { 1 } else { 0 };
    let text_area_width = content_area.width.saturating_sub(v_scrollbar_width_tentative) as usize;
    let max_h_scroll = max_line_width.saturating_sub(text_area_width);
    let h_scrollbar_height: u16 = if max_h_scroll > 0 { 1 } else { 0 };
    let visible_height = content_area.height.saturating_sub(h_scrollbar_height) as usize;
    let max_scroll = total_lines.saturating_sub(visible_height);
    let v_scrollbar_width: u16 = if max_scroll > 0 { 1 } else { 0 };
    let pane_height = content_area.height.saturating_sub(h_scrollbar_height);
    let v_scrollbar_area = Area { x: content_area.x, y: content_area.y, width: v_scrollbar_width, height: pane_height };
    let text_area = Area {
        x: content_area.x + v_scrollbar_width,
        y: content_area.y,
        width: content_area.width.saturating_sub(v_scrollbar_width),
        height: pane_height,
    };
    let h_scrollbar_area = Area {
        x: content_area.x + v_scrollbar_width,
        y: content_area.y + pane_height,
        width: content_area.width.saturating_sub(v_scrollbar_width),
        height: h_scrollbar_height,
    };
    ScrollLayout {
        text_area,
        v_scrollbar_area,
        h_scrollbar_area,
        total_lines,
        max_line_width,
        text_area_width,
        visible_height,
        max_scroll,
        max_h_scroll,
    }
}

/// The status column's classification of a delta status.
pub open spec fn file_status_of(status: DeltaStatus) -> FileStatus {
    match status {
        DeltaStatus::Added => FileStatus::Added,
        DeltaStatus::Deleted => FileStatus::Deleted,
        DeltaStatus::Renamed | DeltaStatus::Copied => FileStatus::Renamed,
        _ => FileStatus::Modified,
    }
}

/// The path shown for a changed file: the new path, or `old → new` for a
/// rename or copy; the old path when there is no new one.
pub open spec fn display_path(f: FileDiff) -> Seq<char> {
    let moved = f.status == DeltaStatus::Renamed || f.status == DeltaStatus::Copied;
    match (f.old_path, f.new_path) {
        (Some(o), Some(n)) => if moved { o@ + " → "@ + n@ } else { n@ },
        (None, Some(n)) => n@,
        (Some(o), None) => o@,
        (None, None) => "<unknown>"@,
    }
}

/// Determine file status and display path from a FileDiff.
pub fn get_file_status_and_path(file: &FileDiff) -> (r: (FileStatus, String))
    ensures
        r.0 == file_status_of(file.status),
        r.1@ == display_path(*file),
{
    let status = match file.status {
        DeltaStatus::Added => FileStatus::Added,
        DeltaStatus::Deleted => FileStatus::Deleted,
        DeltaStatus::Modified => FileStatus::Modified,
        DeltaStatus::Renamed | DeltaStatus::Copied => FileStatus::Renamed,
        DeltaStatus::Typechange => FileStatus::Modified,
        _ => FileStatus::Modified,
    };
    let moved = matches!(file.status, DeltaStatus::Renamed | DeltaStatus::Copied);
    let path = match (&file.old_path, &file.new_path) {
        (Some(old), Some(new)) => {
            if moved {
                let mut p = old.clone();
                push_char(&mut p, ' ');
                push_char(&mut p, '→');
                push_char(&mut p, ' ');
                p.append(new.as_str());
                proof { reveal_strlit(" → "); }
                assert(p@ =~= old@ + " → "@ + new@);
                p
            } else {
                new.clone()
            }
        },
        (None, Some(new)) => new.clone(),
        (Some(old), None) => old.clone(),
        (None, None) => String::from_str("<unknown>"),
    };
    (status, path)
}

/// The one-letter indicator of a file status.
pub open spec fn status_indicator(status: FileStatus) -> Seq<char> {
    match status {
        FileStatus::Added => "A"@,
        FileStatus::Modified => "M"@,
        FileStatus::Deleted => "D"@,
        FileStatus::Renamed => "R"@,
    }
}

/// Format file status as a single character indicator.
pub fn format_file_status(status: FileStatus) -> (s: &'static str)
    ensures
        s@ == status_indicator(status),
{
    match status {
        FileStatus::Added => "A",
        FileStatus::Modified => "M",
        FileStatus::Deleted => "D",
        FileStatus::Renamed => "R",
    }
}

/// Get color for file status indicator.
pub fn get_status_color(status: FileStatus) -> (c: Color)
    ensures
        c == (match status {
            FileStatus::Added => Color::Green,
            FileStatus::Modified => Color::Blue,
            FileStatus::Deleted => Color::Red,
            FileStatus::Renamed => Color::Cyan,
        }),
{
    match status {
        FileStatus::Added => Color::Green,
        FileStatus::Modified => Color::Blue,
        FileStatus::Deleted => Color::Red,
        FileStatus::Renamed => Color::Cyan,
    }
}

/// Format a diff file path with the given prefix, falling back to
/// `/dev/null` when the path is absent (e.g. for added or deleted files).
pub fn diff_path_with_prefix(path: Option<&str>, prefix: &str) -> (s: String)
    ensures
        path matches Some(p) ==> s@ == prefix@ + "/"@ + p@,
        path is None ==> s@ == "/dev/null"@,
{
    match path {
        Some(p) => {
            let mut s = prefix.to_owned();
            push_char(&mut s, '/');
            s.append(p);
            proof { reveal_strlit("/"); }
            assert(s@ =~= prefix@ + "/"@ + p@);
            s
        },
        None => String::from_str("/dev/null"),
    }
}

/// The header line of the detail pane, `width` columns wide: the title on
/// the left, the diff context on the right, spaces between (none when the
/// two do not fit).
pub open spec fn detail_header_text(width: nat, context_lines: nat) -> Seq<char> {
    let title = "Commit information"@;
    let context = "context: "@ + decimal(context_lines) + " "@;
    let pad: nat = if width >= title.len() + context.len() { (width - title.len() - context.len()) as nat } else { 0 };
    title + Seq::new(pad, |_k: int| ' ') + context
}

/// Build the header line of the detail pane.
pub fn detail_header(width: usize, context_lines: u32) -> (s: String)
    ensures
        s@ == detail_header_text(width as nat, context_lines as nat),
{
    let mut context = String::from_str("context: ");
    push_decimal(&mut context, context_lines as usize);
    push_char(&mut context, ' ');
    let title = String::from_str("Commit information");
    proof {
        reveal_strlit("Commit information");
        reveal_strlit("context: ");
        reveal_strlit(" ");
    }
    let title_len = title.as_str().unicode_len();
    let context_len = context.as_str().unicode_len();
    let pad: usize = if width >= title_len && width - title_len >= context_len { width - title_len - context_len } else { 0 };
    let ghost ctx = context@;
    assert(ctx =~= "context: "@ + decimal(context_lines as nat) + " "@);
    assert(title@ == "Commit information"@);
    assert(pad == (if width >= title@.len() + ctx.len() { width - title@.len() - ctx.len() } else { 0int }));
    let mut s = title;
    let ghost start = s@;
    let mut k: usize = 0;
    while k < pad
        invariant
            k <= pad,
            s@ == start + Seq::new(k as nat, |_k: int| ' '),
        decreases pad - k,
    {
        push_char(&mut s, ' ');
        assert(Seq::new(k as nat, |_k: int| ' ').push(' ') =~= Seq::new((k + 1) as nat, |_k: int| ' '));
        k = k + 1;
    }
    s.append(context.as_str());
    assert(s@ =~= detail_header_text(width as nat, context_lines as nat));
    s
}

/// The content line where each file's diff starts: the diff's own offsets,
/// shifted past the `diff_start` lines shown before it.
pub open spec fn file_starts(diff_start: nat, offsets: Seq<usize>) -> Seq<usize> {
    Seq::new(offsets.len(), |i: int| (diff_start + offsets[i]) as usize)
}

/// Record where the shown content places each file, and the scroll bounds
/// of its layout (`None` when there is no diff to show: no file starts).
/// The offsets are pulled back within the bounds by [`clamp_detail_scroll`],
/// once a search has had its say.
pub fn set_detail_layout(detail: &mut DetailState, diff_start: usize, file_offsets: Option<&Vec<usize>>,
    layout: &ScrollLayout)
    requires
        file_offsets matches Some(o) ==> forall|i: int| 0 <= i < o@.len() ==> diff_start + #[trigger] o@[i] <= usize::MAX,
    ensures
        final(detail).file_start_lines@ == (match file_offsets {
            Some(o) => file_starts(diff_start as nat, o@),
            None => Seq::empty(),
        }),
        final(detail).v == (ScrollState { max: layout.max_scroll, visible_height: layout.visible_height, ..old(detail).v }),
        final(detail).h == (ScrollState { max: layout.max_h_scroll, visible_height: layout.text_area_width,
            ..old(detail).h }),
        final(detail).context_lines == old(detail).context_lines,
{
    let mut starts: Vec<usize> = Vec::new();
    if let Some(o) = file_offsets {
        let mut i: usize = 0;
        while i < o.len()
            invariant
                i <= o@.len(),
                forall|j: int| 0 <= j < o@.len() ==> diff_start + #[trigger] o@[j] <= usize::MAX,
                starts@ == file_starts(diff_start as nat, o@.take(i as int)),
            decreases o@.len() - i,
        {
            starts.push(diff_start + o[i]);
            assert(starts@ =~= file_starts(diff_start as nat, o@.take(i + 1)));
            i = i + 1;
        }
        assert(o@.take(o@.len() as int) =~= o@);
    }
    assert(file_offsets is None ==> starts@ =~= Seq::<usize>::empty());
    detail.file_start_lines = starts;
    detail.v.set_bounds(layout.max_scroll, layout.visible_height);
    detail.h.set_bounds(layout.max_h_scroll, layout.text_area_width);
}

/// Pull both scroll offsets of the detail pane back within their bounds,
/// so content that shrank (fewer context lines) leaves no offset past its
/// end.
pub fn clamp_detail_scroll(detail: &mut DetailState)
    ensures
        final(detail).v.offset == min_int(old(detail).v.offset as int, old(detail).v.max as int),
        final(detail).h.offset == min_int(old(detail).h.offset as int, old(detail).h.max as int),
        final(detail).v.max == old(detail).v.max && final(detail).h.max == old(detail).h.max,
        final(detail).v.visible_height == old(detail).v.visible_height,
        final(detail).h.visible_height == old(detail).h.visible_height,
        final(detail).file_start_lines == old(detail).file_start_lines,
        final(detail).context_lines == old(detail).context_lines,
{
    detail.v.clamp_offset();
    detail.h.clamp_offset();
}

} // verus!
