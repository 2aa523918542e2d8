//! Shared helpers of the centered overlay dialogs: border and text colors,
//! scrolling, sizing, and wrapping of their text.

use vstd::prelude::*;
use crate::scroll::ScrollState;
use crate::app::{AppState, KeyCommand};
use crate::palette::Color;
use crate::scroll::page_rows;
use vstd::string::StringSliceAdditionalSpecFns;

verus! {

/// Semantic dialog kind that determines the border color.
#[derive(Clone, Copy, Debug, PartialEq, Eq, Structural)]
pub enum DialogKind {
    /// Informational / status dialog — Cyan border.
    Info,
    /// Confirmation dialog before a non-destructive action — Yellow border.
    Confirm,
    /// Destructive or error dialog — Red border.
    Danger,
}

impl DialogKind {
    /// The border color of this kind of dialog.
    pub fn border_color(&self) -> (c: Color)
        ensures
            c == (match *self {
                DialogKind::Info => Color::Cyan,
                DialogKind::Confirm => Color::Yellow,
                DialogKind::Danger => Color::Red,
            }),
    {
        match self {
            DialogKind::Info => Color::Cyan,
            DialogKind::Confirm => Color::Yellow,
            DialogKind::Danger => Color::Red,
        }
    }
}

/// Semantic text role for dialog content lines.
#[derive(Clone, Copy, Debug, PartialEq, Eq, Structural)]
pub enum TextRole {
    /// Default text — White.
    Normal,
    /// Highlighted / emphasized text — Yellow.
    Highlight,
    /// Muted / secondary text — DarkGray.
    Muted,
    /// Key name or short identifier — Cyan.
    Key,
    /// Error or destructive text — Red.
    Danger,
}

impl TextRole {
    /// The color of text in this role.
    pub fn color(&self) -> (c: Color)
        ensures
            c == (match *self {
                TextRole::Normal => Color::White,
                TextRole::Highlight => Color::Yellow,
                TextRole::Muted => Color::DarkGray,
                TextRole::Key => Color::Cyan,
                TextRole::Danger => Color::Red,
            }),
    {
        match self {
            TextRole::Normal => Color::White,
            TextRole::Highlight => Color::Yellow,
            TextRole::Muted => Color::DarkGray,
            TextRole::Key => Color::Cyan,
            TextRole::Danger => Color::Red,
        }
    }
}

/// Left + right border columns (one column each side).
pub const BORDER_WIDTH: u16 = 2;

/// The dialog's offset after `action`: a line or a page up or down, not
/// past either end; other keys leave it.
pub open spec fn dialog_scrolled(action: KeyCommand, d: ScrollState) -> int {
    let o = d.offset as int;
    let page = page_rows(d.visible_height as nat);
    match action {
        KeyCommand::MoveUp => if o > 0 { o - 1 } else { 0 },
        KeyCommand::MoveDown => crate::scroll::min_int(o + 1, d.max as int),
        KeyCommand::PageUp => if o >= page { o - page } else { 0 },
        KeyCommand::PageDown => crate::scroll::min_int(o + page, d.max as int),
        _ => o,
    }
}

/// Handle scroll keys for a scrollable dialog overlay.
///
/// Returns `true` if the action was consumed. Maps `MoveUp`/`MoveDown` to
/// line scrolling and `PageUp`/`PageDown` to page scrolling.
pub fn handle_dialog_scroll(action: KeyCommand, app: &mut AppState) -> (consumed: bool)
    ensures
        consumed == (action == KeyCommand::MoveUp || action == KeyCommand::MoveDown
            || action == KeyCommand::PageUp || action == KeyCommand::PageDown),
        action == KeyCommand::MoveUp ==> final(app).dialog.offset
            == (if old(app).dialog.offset > 0 { old(app).dialog.offset - 1 } else { 0 }),
        action == KeyCommand::MoveDown ==> final(app).dialog.offset
            == crate::scroll::min_int(old(app).dialog.offset + 1, old(app).dialog.max as int),
        action == KeyCommand::PageUp ==> final(app).dialog.offset
            == (if old(app).dialog.offset >= page_rows(old(app).dialog.visible_height as nat) {
                old(app).dialog.offset - page_rows(old(app).dialog.visible_height as nat)
            } else {
                0
            }),
        action == KeyCommand::PageDown ==> final(app).dialog.offset == crate::scroll::min_int(
            old(app).dialog.offset + page_rows(old(app).dialog.visible_height as nat),
            old(app).dialog.max as int,
        ),
        !consumed ==> *final(app) == *old(app),
        *final(app) == (AppState { dialog: final(app).dialog, ..*old(app) }),
        final(app).dialog.offset == dialog_scrolled(action, old(app).dialog),
        final(app).dialog.max == old(app).dialog.max,
        final(app).mode == old(app).mode,
        final(app).commits == old(app).commits,
        final(app).selection_index == old(app).selection_index,
{
    match action {
        KeyCommand::MoveUp => {
            app.scroll_dialog_up();
            true
        },
        KeyCommand::MoveDown => {
            app.scroll_dialog_down();
            true
        },
        KeyCommand::PageUp => {
            app.scroll_dialog_page_up();
            true
        },
        KeyCommand::PageDown => {
            app.scroll_dialog_page_down();
            true
        },
        _ => false,
    }
}

/// The usable inner width for content inside a dialog: the preferred width,
/// capped by the terminal width less both borders, less the border columns.
pub open spec fn inner_width_spec(preferred_width: nat, area_width: nat) -> nat {
    let avail: nat = if area_width >= 4 { (area_width - 4) as nat } else { 0 };
    let w: nat = if preferred_width <= avail { preferred_width } else { avail };
    if w >= 2 { (w - 2) as nat } else { 0 }
}

/// Compute the usable inner width for content inside a dialog.
///
/// Returns the number of character columns available between the borders,
/// accounting for the terminal width constraint.
pub fn inner_width(preferred_width: u16, area_width: u16) -> (w: usize)
    ensures
        w == inner_width_spec(preferred_width as nat, area_width as nat),
{
    let avail = area_width.saturating_sub(BORDER_WIDTH * 2);
    let w = if preferred_width <= avail { preferred_width } else { avail };
    w.saturating_sub(BORDER_WIDTH) as usize
}

/// `path` shortened to its tail behind `" …"` when it (plus room for the
/// marker) is wider than `inner_width` bytes; the tail keeps
/// `inner_width - 3` characters.
pub open spec fn truncated_tail(path: Seq<char>, byte_len: nat, inner_width: nat) -> Seq<char> {
    if byte_len + 3 > inner_width {
        let keep: nat = if inner_width >= 3 { (inner_width - 3) as nat } else { 0 };
        let skip: nat = if path.len() >= keep { (path.len() - keep) as nat } else { 0 };
        seq![' ', '\u{2026}'] + path.skip(skip as int)
    } else {
        path
    }
}

/// Shorten `path` to roughly `inner_width` columns, keeping its tail behind a
/// leading ellipsis (`" …tail"`). Truncates on a character boundary, so a
/// non-ASCII path never panics; for ASCII input the result is unchanged.
pub fn truncate_path_tail(path: &str, inner_width: usize) -> (r: String)
    ensures
        r@ == truncated_tail(path@, path.spec_bytes().len(), inner_width as nat),
{
    let bytes = path.as_bytes().len();
    if inner_width < 3 || bytes > inner_width - 3 {
        let keep = inner_width.saturating_sub(3);
        let n = path.unicode_len();
        let skip = n.saturating_sub(keep);
        let tail = path.substring_char(skip, n);
        let mut out = String::new();
        crate::text::push_char(&mut out, ' ');
        crate::text::push_char(&mut out, '\u{2026}');
        out.append(tail);
        assert(out@ =~= seq![' ', '\u{2026}'] + path@.skip(skip as int));
        out
    } else {
        String::from_str(path)
    }
}

/// Position of the last space in `s`, or -1.
pub open spec fn last_space(s: Seq<char>) -> int
    decreases s.len(),
{
    if s.len() == 0 {
        -1
    } else if s.last() == ' ' {
        s.len() - 1
    } else {
        last_space(s.drop_last())
    }
}

/// Where an over-long line of `s` is broken for width `w`: at the last space
/// within the first `w` characters (if not at the very start), else hard at
/// `w`.
pub open spec fn break_point(s: Seq<char>, w: nat) -> nat {
    let p = last_space(s.take(w as int));
    if p > 0 { p as nat } else { w }
}

/// `s` without its leading spaces.
pub open spec fn skip_spaces(s: Seq<char>) -> Seq<char>
    decreases s.len(),
{
    if s.len() > 0 && s[0] == ' ' { skip_spaces(s.drop_first()) } else { s }
}

/// The lines `s` wraps into at width `w > 0`.
pub open spec fn wrap_lines(s: Seq<char>, w: nat) -> Seq<Seq<char>>
    decreases s.len(),
{
    if w > 0 && s.len() > w {
        let b = break_point(s, w);
        proof {
            lemma_last_space_bounds(s.take(w as int));
            lemma_skip_spaces_len(s.skip(b as int));
        }
        seq![s.take(b as int)] + wrap_lines(skip_spaces(s.skip(b as int)), w)
    } else {
        seq![s]
    }
}

pub proof fn lemma_skip_spaces_len(s: Seq<char>)
    ensures
        skip_spaces(s).len() <= s.len(),
    decreases s.len(),
{
    if s.len() > 0 && s[0] == ' ' {
        lemma_skip_spaces_len(s.drop_first());
    }
}

pub proof fn lemma_last_space_bounds(s: Seq<char>)
    ensures
        -1 <= last_space(s) < s.len(),
        last_space(s) >= 0 ==> s[last_space(s)] == ' ',
        forall|j: int| last_space(s) < j < s.len() ==> s[j] != ' ',
    decreases s.len(),
{
    if s.len() > 0 && s.last() != ' ' {
        lemma_last_space_bounds(s.drop_last());
        assert forall|j: int| last_space(s) < j < s.len() implies s[j] != ' ' by {
            if j < s.len() - 1 {
                assert(s[j] == s.drop_last()[j]);
            }
        }
    }
}

proof fn lemma_skip_spaces(s: Seq<char>, k: int)
    requires
        0 <= k <= s.len(),
        forall|j: int| 0 <= j < k ==> s[j] == ' ',
        k == s.len() || s[k] != ' ',
    ensures
        skip_spaces(s) == s.skip(k),
    decreases s.len(),
{
    if k > 0 {
        lemma_skip_spaces(s.drop_first(), k - 1);
        assert(s.drop_first().skip(k - 1) =~= s.skip(k));
    } else {
        assert(s.skip(0) =~= s);
    }
}

/// Wrapping at a positive width never yields a line wider than the width,
/// and always yields at least one line.
pub proof fn lemma_wrapped_lines_fit(s: Seq<char>, w: nat)
    requires
        w > 0,
    ensures
        wrap_lines(s, w).len() >= 1,
        forall|i: int| 0 <= i < wrap_lines(s, w).len() ==> (#[trigger] wrap_lines(s, w)[i]).len() <= w,
    decreases s.len(),
{
    if s.len() > w {
        let b = break_point(s, w);
        lemma_last_space_bounds(s.take(w as int));
        lemma_skip_spaces_len(s.skip(b as int));
        let rest = skip_spaces(s.skip(b as int));
        lemma_wrapped_lines_fit(rest, w);
        let all = wrap_lines(s, w);
        assert(all == seq![s.take(b as int)] + wrap_lines(rest, w));
        assert forall|i: int| 0 <= i < all.len() implies (#[trigger] all[i]).len() <= w by {
            if i > 0 {
                assert(all[i] == wrap_lines(rest, w)[i - 1]);
            }
        }
    }
}

/// Position of the last space among the first `w` characters of `s`.
fn last_space_within(s: &str, w: usize) -> (r: Option<usize>)
    requires
        w <= s@.len(),
    ensures
        r is None ==> last_space(s@.take(w as int)) < 0,
        r matches Some(p) ==> p as int == last_space(s@.take(w as int)),
{
    let mut i = w;
    while i > 0
        invariant
            i <= w <= s@.len(),
            forall|j: int| i <= j < w ==> s@[j] != ' ',
        decreases i,
    {
        if s.get_char(i - 1) == ' ' {
            proof { lemma_last_space_take(s@, w as int, i - 1); }
            return Some(i - 1);
        }
        i = i - 1;
    }
    proof { lemma_last_space_take(s@, w as int, -1); }
    None
}

proof fn lemma_last_space_take(s: Seq<char>, w: int, p: int)
    requires
        0 <= w <= s.len(),
        -1 <= p < w,
        p >= 0 ==> s[p] == ' ',
        forall|j: int| p < j < w ==> s[j] != ' ',
    ensures
        last_space(s.take(w)) == p,
    decreases w,
{
    if w > 0 && p < w - 1 {
        assert(s.take(w).drop_last() =~= s.take(w - 1));
        lemma_last_space_take(s, w - 1, p);
    }
}

/// Word-wrap `text` to at most `width` display columns per line.
///
/// Breaks at the last space within the allowed width; falls back to a hard
/// break at `width` characters when no space is found. Always returns at
/// least one element.
pub fn wrap_text(text: &str, width: usize) -> (lines: Vec<String>)
    ensures
        lines@.len() >= 1,
        forall|i: int| 0 <= i < lines@.len() ==> #[trigger] lines@[i]@ == wrap_lines(text@, width as nat)[i],
        lines@.len() == wrap_lines(text@, width as nat).len(),
{
    let mut result: Vec<String> = Vec::new();
    if width == 0 || text.unicode_len() == 0 {
        result.push(String::from_str(text));
        return result;
    }
    let mut remaining: &str = text;
    let ghost done: Seq<Seq<char>> = Seq::empty();
    while remaining.unicode_len() > width
        invariant
            width > 0,
            result@.len() == done.len(),
            forall|i: int| 0 <= i < done.len() ==> #[trigger] result@[i]@ == done[i],
            done + wrap_lines(remaining@, width as nat) == wrap_lines(text@, width as nat),
        decreases remaining@.len(),
    {
        let n = remaining.unicode_len();
        let break_at = match last_space_within(remaining, width) {
            Some(p) => if p > 0 { p } else { width },
            None => width,
        };
        proof { lemma_last_space_bounds(remaining@.take(width as int)); }
        assert(break_at == break_point(remaining@, width as nat));
        let piece = remaining.substring_char(0, break_at);
        let rest = remaining.substring_char(break_at, n);
        let m = rest.unicode_len();
        let mut k: usize = 0;
        while k < m && rest.get_char(k) == ' '
            invariant
                m == rest@.len(),
                k <= m,
                forall|j: int| 0 <= j < k ==> rest@[j] == ' ',
            decreases m - k,
        {
            k = k + 1;
        }
        proof { lemma_skip_spaces(rest@, k as int); }
        let next = rest.substring_char(k, m);
        let ghost old_rem = remaining@;
        result.push(String::from_str(piece));
        proof {
            assert(piece@ == old_rem.take(break_at as int));
            assert(rest@ == old_rem.skip(break_at as int));
            assert(next@ == skip_spaces(old_rem.skip(break_at as int)));
            assert(wrap_lines(old_rem, width as nat) == seq![old_rem.take(break_at as int)] + wrap_lines(next@, width as nat));
            done = done.push(piece@);
            assert(done + wrap_lines(next@, width as nat) =~= (done.drop_last() + seq![piece@]) + wrap_lines(next@, width as nat));
        }
        remaining = next;
    }
    result.push(String::from_str(remaining));
    proof {
        assert(wrap_lines(remaining@, width as nat) == seq![remaining@]);
        done = done.push(remaining@);
    }
    assert(done =~= wrap_lines(text@, width as nat));
    result
}

/// The leading spaces of `s`.
pub open spec fn leading_spaces(s: Seq<char>) -> Seq<char>
    decreases s.len(),
{
    if s.len() > 0 && s[0] == ' ' { seq![' '] + leading_spaces(s.drop_first()) } else { Seq::empty() }
}

proof fn lemma_leading_spaces(s: Seq<char>, k: int)
    requires
        0 <= k <= s.len(),
        forall|j: int| 0 <= j < k ==> s[j] == ' ',
        k == s.len() || s[k] != ' ',
    ensures
        leading_spaces(s) == s.take(k),
    decreases s.len(),
{
    if k > 0 {
        lemma_leading_spaces(s.drop_first(), k - 1);
        assert(seq![' '] + s.drop_first().take(k - 1) =~= s.take(k));
    } else {
        assert(s.take(0) =~= Seq::<char>::empty());
    }
}

/// Like `wrap_text`, but preserves the leading whitespace of the first line
/// as a hanging indent on all continuation lines so wrapped text stays
/// visually grouped under its first line.
pub fn wrap_text_indent(text: &str, width: usize) -> (lines: Vec<String>)
    ensures
        lines@.len() == wrap_lines(text@, width as nat).len(),
        lines@.len() >= 1,
        lines@[0]@ == wrap_lines(text@, width as nat)[0],
        forall|i: int| 1 <= i < lines@.len() ==> #[trigger] lines@[i]@
            == leading_spaces(text@) + wrap_lines(text@, width as nat)[i],
{
    let n = text.unicode_len();
    let mut k: usize = 0;
    while k < n && text.get_char(k) == ' '
        invariant
            n == text@.len(),
            k <= n,
            forall|j: int| 0 <= j < k ==> text@[j] == ' ',
        decreases n - k,
    {
        k = k + 1;
    }
    proof { lemma_leading_spaces(text@, k as int); }
    let indent = text.substring_char(0, k);
    let chunks = wrap_text(text, width);
    if chunks.len() <= 1 || k == 0 {
        proof {
            if k == 0 {
                assert forall|i: int| 1 <= i < chunks@.len() implies #[trigger] chunks@[i]@
                    == leading_spaces(text@) + wrap_lines(text@, width as nat)[i] by {
                    assert(leading_spaces(text@) + wrap_lines(text@, width as nat)[i] =~= wrap_lines(text@, width as nat)[i]);
                }
            }
        }
        return chunks;
    }
    let mut result: Vec<String> = Vec::new();
    result.push(chunks[0].clone());
    let mut i: usize = 1;
    while i < chunks.len()
        invariant
            1 <= i <= chunks@.len(),
            indent@ == leading_spaces(text@),
            result@.len() == i,
            result@[0]@ == chunks@[0]@,
            forall|j: int| 1 <= j < i ==> #[trigger] result@[j]@ == indent@ + chunks@[j]@,
        decreases chunks@.len() - i,
    {
        let mut line = String::from_str(indent);
        line.append(chunks[i].as_str());
        result.push(line);
        i = i + 1;
    }
    result
}

} // verus!
