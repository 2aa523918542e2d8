//! Regex search within the commit detail view — query entry, match
//! navigation, and which lines and byte ranges to highlight.

use vstd::prelude::*;
use vstd::string::StringSliceAdditionalSpecFns;
use crate::app::{AppAction, AppState};
use crate::pattern::{compile, finds, match_ranges, pattern_compiles, pattern_finds, pattern_match_ranges, ranges_ordered, SearchPattern};
use crate::scroll::{min_int, ScrollState};
use crate::text::{pop_char, push_char};

verus! {

/// Which way to step through the matches.
#[derive(Clone, Copy, Debug, PartialEq, Eq, Structural)]
pub enum SearchDirection {
    Next,
    Prev,
}

/// What the search bar shows after a search has run.
#[derive(Clone, Copy, Debug, PartialEq, Eq, Structural)]
pub enum SearchBarInfo {
    NoMatches,
    InvalidPattern,
    Matches { current: usize, total: usize },
}

/// A key pressed while the search bar takes input.
#[derive(Clone, Copy, Debug, PartialEq, Eq, Structural)]
pub enum SearchKey {
    /// Ctrl-C.
    Interrupt,
    Escape,
    Enter,
    Backspace,
    Char(char),
    /// Any other key, which the search bar ignores.
    Other,
}

/// The match to go to from `current` among `len` matches, wrapping at both
/// ends; without a current match, the first (forward) or last (backward).
pub open spec fn next_match_spec(current: Option<usize>, len: nat, dir: SearchDirection) -> nat {
    match (current, dir) {
        (Some(idx), SearchDirection::Next) => ((idx + 1) % (len as int)) as nat,
        (Some(idx), SearchDirection::Prev) => if idx == 0 { (len - 1) as nat } else { (idx - 1) as nat },
        (None, SearchDirection::Next) => 0,
        (None, SearchDirection::Prev) => (len - 1) as nat,
    }
}

/// Stepping to the next match and then back to the previous one returns to
/// where the search was, and so does stepping back then forward.
pub proof fn lemma_next_prev_round_trip(i: usize, len: nat)
    requires
        i < len,
        len <= usize::MAX,
    ensures
        next_match_spec(Some(next_match_spec(Some(i), len, SearchDirection::Next) as usize), len, SearchDirection::Prev) == i,
        next_match_spec(Some(next_match_spec(Some(i), len, SearchDirection::Prev) as usize), len, SearchDirection::Next) == i,
        next_match_spec(Some(i), len, SearchDirection::Next) < len,
        next_match_spec(Some(i), len, SearchDirection::Prev) < len,
{
    if i + 1 < len {
        assert((i + 1) % (len as int) == i + 1) by (nonlinear_arith)
            requires i + 1 < len, 0 <= i;
    } else {
        assert((i + 1) % (len as int) == 0) by (nonlinear_arith)
            requires i + 1 == len;
    }
    if i > 0 {
        assert(((i - 1) + 1) % (len as int) == i) by (nonlinear_arith)
            requires 0 < i < len;
    } else {
        assert(((len - 1) + 1) % (len as int) == 0) by (nonlinear_arith)
            requires len > 0;
    }
}

/// Return the next match index given the current index, list length, and
/// direction. Wraps around at both ends.
pub fn next_match_index(current: Option<usize>, len: usize, dir: SearchDirection) -> (r: usize)
    requires
        len > 0,
        dir == SearchDirection::Next ==> (current matches Some(idx) ==> idx < usize::MAX),
    ensures
        r == next_match_spec(current, len as nat, dir),
{
    match (current, dir) {
        (Some(idx), SearchDirection::Next) => (idx + 1) % len,
        (Some(0), SearchDirection::Prev) => len - 1,
        (Some(idx), SearchDirection::Prev) => idx - 1,
        (None, SearchDirection::Next) => 0,
        (None, SearchDirection::Prev) => len - 1,
    }
}

/// The vertical offset after centring on `target`: unchanged while `target`
/// is on screen (or before the pane was measured); otherwise `target` half
/// a screen down, not past the end.
pub open spec fn centered(v: ScrollState, target: usize) -> usize {
    let vh = v.visible_height;
    if vh == 0 || (v.offset <= target && target < v.offset + vh) {
        v.offset
    } else {
        let want: int = if target >= vh / 2 { target - vh / 2 } else { 0 };
        min_int(want, v.max as int) as usize
    }
}

/// Center the detail view on `target_line`, but only when it is off screen —
/// recentring an already-visible match would fight the user's own scrolling.
pub fn center_on_line(app: &mut AppState, target_line: usize)
    ensures
        final(app).detail.v.offset == centered(old(app).detail.v, target_line),
        final(app).detail.v.max == old(app).detail.v.max,
        final(app).detail.v.visible_height == old(app).detail.v.visible_height,
        final(app).detail.h == old(app).detail.h,
        final(app).detail.file_start_lines == old(app).detail.file_start_lines,
        final(app).detail.context_lines == old(app).detail.context_lines,
        final(app).search == old(app).search,
        final(app).mode == old(app).mode,
        final(app).commits == old(app).commits,
        final(app).selection_index == old(app).selection_index,
{
    let vh = app.detail.v.visible_height;
    if vh == 0 {
        return;
    }
    let offset = app.detail.v.offset;
    if target_line < offset || target_line - offset >= vh {
        app.detail.v.scroll_to(target_line.saturating_sub(vh / 2));
    }
}

/// The offset after going to the current match, when there is one.
pub open spec fn at_current_match(v: ScrollState, matches: Seq<usize>, match_index: Option<usize>) -> usize {
    match match_index {
        Some(i) => if i < matches.len() { centered(v, matches[i as int]) } else { v.offset },
        None => v.offset,
    }
}

/// Scroll the detail view so the current search match line is visible.
pub fn scroll_to_current_match(app: &mut AppState)
    ensures
        final(app).detail.v.offset == at_current_match(old(app).detail.v, old(app).search.matches@, old(app).search.match_index),
        final(app).detail.v.max == old(app).detail.v.max,
        final(app).detail.v.visible_height == old(app).detail.v.visible_height,
        final(app).detail.h == old(app).detail.h,
        final(app).search == old(app).search,
        final(app).mode == old(app).mode,
        final(app).selection_index == old(app).selection_index,
        final(app).commits == old(app).commits,
{
    if let Some(match_idx) = app.search.match_index {
        if match_idx < app.search.matches.len() {
            let target_line = app.search.matches[match_idx];
            center_on_line(app, target_line);
        }
    }
}

/// Advance to the next or previous search match, wrapping around; nothing
/// happens without an active search that has matches.
pub fn advance_search_match(app: &mut AppState, dir: SearchDirection)
    requires
        dir == SearchDirection::Next ==> (old(app).search.match_index matches Some(i) ==> i < usize::MAX),
    ensures
        final(app).commits == old(app).commits,
        final(app).selection_index == old(app).selection_index,
        final(app).mode == old(app).mode,
        !old(app).search.active || old(app).search.matches@.len() == 0 ==> *final(app) == *old(app),
        old(app).search.active && old(app).search.matches@.len() > 0 ==> {
            let k = next_match_spec(old(app).search.match_index, old(app).search.matches@.len(), dir);
            &&& final(app).search.match_index == Some(k as usize)
            &&& final(app).search.matches == old(app).search.matches
            &&& final(app).search.query == old(app).search.query
            &&& final(app).search.active == old(app).search.active
            &&& final(app).search.input_active == old(app).search.input_active
            &&& final(app).detail.v.offset == at_current_match(old(app).detail.v, old(app).search.matches@, Some(k as usize))
            &&& final(app).detail.v.max == old(app).detail.v.max
            &&& final(app).mode == old(app).mode
            &&& final(app).commits == old(app).commits
        },
{
    if !app.search.active || app.search.matches.len() == 0 {
        return;
    }
    let len = app.search.matches.len();
    let k = next_match_index(app.search.match_index, len, dir);
    app.search.match_index = Some(k);
    scroll_to_current_match(app);
}

/// Advance to the next search match, wrapping around.
pub fn next_match(app: &mut AppState)
    requires
        old(app).search.match_index matches Some(i) ==> i < usize::MAX,
    ensures
        final(app).commits == old(app).commits,
        final(app).selection_index == old(app).selection_index,
        final(app).mode == old(app).mode,
        !old(app).search.active || old(app).search.matches@.len() == 0 ==> *final(app) == *old(app),
        old(app).search.active && old(app).search.matches@.len() > 0 ==> {
            let k = next_match_spec(old(app).search.match_index, old(app).search.matches@.len(), SearchDirection::Next);
            &&& final(app).search.match_index == Some(k as usize)
            &&& final(app).search.matches == old(app).search.matches
            &&& final(app).detail.v.offset == at_current_match(old(app).detail.v, old(app).search.matches@, Some(k as usize))
            &&& final(app).mode == old(app).mode
        },
{
    advance_search_match(app, SearchDirection::Next);
}

/// Advance to the previous search match, wrapping around.
pub fn prev_match(app: &mut AppState)
    ensures
        final(app).commits == old(app).commits,
        final(app).selection_index == old(app).selection_index,
        final(app).mode == old(app).mode,
        !old(app).search.active || old(app).search.matches@.len() == 0 ==> *final(app) == *old(app),
        old(app).search.active && old(app).search.matches@.len() > 0 ==> {
            let k = next_match_spec(old(app).search.match_index, old(app).search.matches@.len(), SearchDirection::Prev);
            &&& final(app).search.match_index == Some(k as usize)
            &&& final(app).search.matches == old(app).search.matches
            &&& final(app).detail.v.offset == at_current_match(old(app).detail.v, old(app).search.matches@, Some(k as usize))
            &&& final(app).mode == old(app).mode
        },
{
    advance_search_match(app, SearchDirection::Prev);
}

fn first_match_at_or_after(matches: &Vec<usize>, offset: usize) -> (r: usize)
    ensures
        (exists|j: int| 0 <= j < matches@.len() && #[trigger] matches@[j] >= offset) ==> r < matches@.len()
            && matches@[r as int] >= offset && forall|j: int| 0 <= j < r ==> #[trigger] matches@[j] < offset,
        (forall|j: int| 0 <= j < matches@.len() ==> #[trigger] matches@[j] < offset) ==> r == 0,
{
    let mut i: usize = 0;
    while i < matches.len()
        invariant
            i <= matches@.len(),
            forall|j: int| 0 <= j < i ==> #[trigger] matches@[j] < offset,
        decreases matches@.len() - i,
    {
        if matches[i] >= offset {
            return i;
        }
        i = i + 1;
    }
    0
}

/// Handle raw keyboard events while the search input bar is active.
///
/// Ctrl-C quits; Esc dismisses the search; Enter stops taking input and
/// jumps to the first match at or after the current scroll position,
/// wrapping to the first match when all matches lie above — the same
/// behavior as `less`; Backspace and characters edit the query.
pub fn handle_search_event(key: SearchKey, app: &mut AppState) -> (r: AppAction)
    ensures
        key == SearchKey::Interrupt ==> r is Quit && *final(app) == *old(app),
        key != SearchKey::Interrupt ==> r is Handled,
        final(app).mode == old(app).mode,
        final(app).commits == old(app).commits,
        key == SearchKey::Escape ==> !final(app).search.active && !final(app).search.input_active
            && final(app).search.query@.len() == 0 && final(app).search.matches@.len() == 0
            && final(app).search.match_index is None,
        key == SearchKey::Enter ==> !final(app).search.input_active
            && final(app).search.query == old(app).search.query
            && final(app).search.matches == old(app).search.matches
            && (old(app).search.matches@.len() == 0 ==> final(app).search.match_index == old(app).search.match_index
                && final(app).detail.v == old(app).detail.v)
            && (old(app).search.matches@.len() > 0 ==> ({
                let ms = old(app).search.matches@;
                let first = if exists|j: int| 0 <= j < ms.len() && #[trigger] ms[j] >= old(app).detail.v.offset {
                    choose|k: int| 0 <= k < ms.len() && ms[k] >= old(app).detail.v.offset
                        && forall|j: int| 0 <= j < k ==> #[trigger] ms[j] < old(app).detail.v.offset
                } else {
                    0
                };
                &&& final(app).search.match_index == Some(first as usize)
                &&& final(app).detail.v.offset == centered(old(app).detail.v, ms[first])
            })),
        key == SearchKey::Backspace ==> final(app).search.query@ == (if old(app).search.query@.len() > 0 {
            old(app).search.query@.drop_last()
        } else {
            old(app).search.query@
        }),
        key matches SearchKey::Char(c) ==> final(app).search.query@ == old(app).search.query@.push(c),
        key == SearchKey::Other ==> *final(app) == *old(app),
{
    match key {
        SearchKey::Interrupt => {
            return AppAction::Quit;
        },
        SearchKey::Escape => {
            app.search.clear();
        },
        SearchKey::Enter => {
            app.search.input_active = false;
            if app.search.matches.len() > 0 {
                let next_idx = first_match_at_or_after(&app.search.matches, app.detail.v.offset);
                proof {
                    let ms = old(app).search.matches@;
                    let off = old(app).detail.v.offset;
                    if exists|j: int| 0 <= j < ms.len() && #[trigger] ms[j] >= off {
                        let w = choose|j: int| 0 <= j < ms.len() && #[trigger] ms[j] >= off;
                        if next_idx as int >= ms.len() || ms[next_idx as int] < off {
                            assert(ms[w] >= off);
                        }
                        let k = choose|k: int| 0 <= k < ms.len() && ms[k] >= off
                            && forall|j: int| 0 <= j < k ==> #[trigger] ms[j] < off;
                        assert(k == next_idx) by {
                            if k < next_idx {
                                assert(ms[k] < off);
                            } else if k > next_idx {
                                assert(ms[next_idx as int] < off);
                            }
                        }
                    }
                }
                app.search.match_index = Some(next_idx);
                scroll_to_current_match(app);
            }
        },
        SearchKey::Backspace => {
            let _ = pop_char(&mut app.search.query);
        },
        SearchKey::Char(c) => {
            push_char(&mut app.search.query, c);
        },
        SearchKey::Other => {},
    }
    AppAction::Handled
}

/// Indices of the lines of `content` that the pattern finds a match in,
/// ascending.
pub open spec fn matching_lines(pattern: Seq<char>, content: Seq<String>, n: nat) -> Seq<usize>
    decreases n,
{
    if n == 0 {
        Seq::empty()
    } else {
        let prev = matching_lines(pattern, content, (n - 1) as nat);
        if pattern_finds(pattern, content[n - 1]@) { prev.push((n - 1) as usize) } else { prev }
    }
}

/// The matches are exactly the lines the pattern finds a match in: a line
/// is listed if and only if the pattern finds a match in it, and the list
/// is strictly ascending (each such line once, in order).
pub proof fn lemma_matching_lines_exact(pattern: Seq<char>, content: Seq<String>, n: nat)
    requires
        n <= content.len(),
        n <= usize::MAX,
    ensures
        forall|i: int| 0 <= i < n ==> (#[trigger] matching_lines(pattern, content, n).contains(i as usize)
            <==> pattern_finds(pattern, content[i]@)),
        forall|k: int| 0 <= k < matching_lines(pattern, content, n).len()
            ==> #[trigger] matching_lines(pattern, content, n)[k] < n,
        forall|a: int, b: int| 0 <= a < b < matching_lines(pattern, content, n).len()
            ==> #[trigger] matching_lines(pattern, content, n)[a] < #[trigger] matching_lines(pattern, content, n)[b],
    decreases n,
{
    if n > 0 {
        let prev = matching_lines(pattern, content, (n - 1) as nat);
        lemma_matching_lines_exact(pattern, content, (n - 1) as nat);
        let m = matching_lines(pattern, content, n);
        assert forall|i: int| 0 <= i < n implies (#[trigger] m.contains(i as usize)
            <==> pattern_finds(pattern, content[i]@)) by {
            if i < n - 1 {
                assert(prev.contains(i as usize) <==> pattern_finds(pattern, content[i]@));
                if m.contains(i as usize) {
                    let k = choose|k: int| 0 <= k < m.len() && m[k] == i as usize;
                    if k < prev.len() {
                        assert(prev[k] == m[k]);
                    }
                }
                if prev.contains(i as usize) {
                    let k = choose|k: int| 0 <= k < prev.len() && prev[k] == i as usize;
                    assert(m[k] == prev[k]);
                }
            } else {
                if pattern_finds(pattern, content[n - 1]@) {
                    assert(m[prev.len() as int] == (n - 1) as usize);
                } else if m.contains(i as usize) {
                    let k = choose|k: int| 0 <= k < m.len() && m[k] == i as usize;
                    assert(prev[k] < n - 1);
                }
            }
        }
        assert forall|k: int| 0 <= k < m.len() implies #[trigger] m[k] < n by {
            if k < prev.len() {
                assert(m[k] == prev[k]);
            }
        }
        assert forall|a: int, b: int| 0 <= a < b < m.len() implies #[trigger] m[a] < #[trigger] m[b] by {
            assert(m[a] == prev[a]);
            if b < prev.len() {
                assert(m[b] == prev[b]);
            }
        }
    }
}

/// Find all content lines matching the pattern, update `app.search.matches`
/// and `app.search.match_index` (kept when still in range, else clamped to
/// the last match; the first match when there was none), and return what
/// the search bar shows plus the previous match index.
pub fn compute_search_matches(app: &mut AppState, content: &Vec<String>, pattern: &SearchPattern)
    -> (r: (SearchBarInfo, Option<usize>))
    ensures
        r.1 == old(app).search.match_index,
        final(app).search.matches@ == matching_lines(pattern@, content@, content@.len() as nat),
        forall|i: int| 0 <= i < content@.len() ==> (#[trigger] final(app).search.matches@.contains(i as usize)
            <==> pattern_finds(pattern@, content@[i]@)),
        forall|a: int, b: int| 0 <= a < b < final(app).search.matches@.len()
            ==> #[trigger] final(app).search.matches@[a] < #[trigger] final(app).search.matches@[b],
        final(app).search.active == old(app).search.active,
        final(app).search.input_active == old(app).search.input_active,
        final(app).search.query == old(app).search.query,
        final(app).detail == old(app).detail,
        final(app).mode == old(app).mode,
        final(app).commits == old(app).commits,
        ({
            let total = final(app).search.matches@.len();
            &&& total == 0 ==> final(app).search.match_index is None && r.0 == SearchBarInfo::NoMatches
            &&& total > 0 ==> {
                let k: usize = match old(app).search.match_index {
                    None => 0,
                    Some(i) => if i >= total { (total - 1) as usize } else { i },
                };
                final(app).search.match_index == Some(k)
                    && r.0 == (SearchBarInfo::Matches { current: k, total: total as usize })
            }
        }),
{
    let prev_match_index = app.search.match_index;
    let mut matches: Vec<usize> = Vec::new();
    let mut i: usize = 0;
    while i < content.len()
        invariant
            i <= content@.len(),
            matches@ == matching_lines(pattern@, content@, i as nat),
        decreases content@.len() - i,
    {
        if finds(pattern, content[i].as_str()) {
            matches.push(i);
        }
        i = i + 1;
    }
    proof { lemma_matching_lines_exact(pattern@, content@, content@.len() as nat); }
    app.search.matches = matches;
    let total = app.search.matches.len();
    if total == 0 {
        app.search.match_index = None;
        (SearchBarInfo::NoMatches, prev_match_index)
    } else {
        let k = match app.search.match_index {
            None => 0,
            Some(idx) => if idx >= total { total - 1 } else { idx },
        };
        app.search.match_index = Some(k);
        (SearchBarInfo::Matches { current: k, total }, prev_match_index)
    }
}

/// Scroll the detail view so the current match is visible, but only when the
/// match index actually changed (first match found or index clamped). This
/// avoids overriding manual arrow/PageUp/PageDown scrolling on every render.
pub fn auto_scroll_to_new_match(app: &mut AppState, prev_match_index: Option<usize>)
    requires
        old(app).search.match_index matches Some(mi) ==> mi < old(app).search.matches@.len(),
    ensures
        old(app).search.match_index == prev_match_index ==> *final(app) == *old(app),
        old(app).search.match_index != prev_match_index ==> final(app).detail.v.offset == at_current_match(
            old(app).detail.v, old(app).search.matches@, old(app).search.match_index),
        final(app).detail.v.max == old(app).detail.v.max,
        final(app).search == old(app).search,
        final(app).mode == old(app).mode,
        final(app).commits == old(app).commits,
{
    if app.search.match_index != prev_match_index {
        if let Some(mi) = app.search.match_index {
            let line = app.search.matches[mi];
            center_on_line(app, line);
        }
    }
}

/// Run the search over the plain text of the detail view's content lines:
/// recompute the matches of an active, non-empty query (and go to a newly
/// selected match once the query is entered), and return what the search
/// bar shows. An invalid pattern clears the matches; a dismissed search
/// clears them too and shows no bar.
pub fn apply(app: &mut AppState, content: &Vec<String>) -> (info: Option<SearchBarInfo>)
    ensures
        final(app).mode == old(app).mode,
        final(app).commits == old(app).commits,
        final(app).search.query == old(app).search.query,
        final(app).search.active == old(app).search.active,
        final(app).search.input_active == old(app).search.input_active,
        !old(app).search.active ==> info is None && final(app).search.matches@.len() == 0
            && final(app).search.match_index is None && final(app).detail == old(app).detail,
        old(app).search.active && old(app).search.query@.len() == 0 ==> info is None && *final(app) == *old(app),
        old(app).search.active && old(app).search.query@.len() > 0 && !pattern_compiles(old(app).search.query@) ==>
            info == Some(SearchBarInfo::InvalidPattern) && final(app).search.matches@.len() == 0
            && final(app).search.match_index is None && final(app).detail == old(app).detail,
        old(app).search.active && old(app).search.query@.len() > 0 && pattern_compiles(old(app).search.query@) ==> ({
            let ms = matching_lines(old(app).search.query@, content@, content@.len() as nat);
            let total = ms.len();
            &&& final(app).search.matches@ == ms
            &&& total == 0 ==> info == Some(SearchBarInfo::NoMatches) && final(app).search.match_index is None
                && final(app).detail == old(app).detail
            &&& total > 0 ==> {
                let k: usize = match old(app).search.match_index {
                    None => 0,
                    Some(i) => if i >= total { (total - 1) as usize } else { i },
                };
                &&& final(app).search.match_index == Some(k)
                &&& info == Some(SearchBarInfo::Matches { current: k, total: total as usize })
                &&& (old(app).search.input_active || Some(k) == old(app).search.match_index)
                    ==> final(app).detail == old(app).detail
                &&& (!old(app).search.input_active && Some(k) != old(app).search.match_index)
                    ==> final(app).detail.v.offset == centered(old(app).detail.v, ms[k as int])
            }
        }),
{
    if app.search.active && !app.search.query.as_str().is_empty() {
        match compile(&app.search.query) {
            Ok(pattern) => {
                let (info, prev_match_index) = compute_search_matches(app, content, &pattern);
                if app.search.matches.len() > 0 && !app.search.input_active {
                    auto_scroll_to_new_match(app, prev_match_index);
                }
                Some(info)
            },
            Err(_) => {
                app.search.matches = Vec::new();
                app.search.match_index = None;
                Some(SearchBarInfo::InvalidPattern)
            },
        }
    } else if !app.search.active {
        app.search.matches = Vec::new();
        app.search.match_index = None;
        None
    } else {
        None
    }
}

/// The pieces of a line's text for display, as byte ranges: the text
/// between matches plain, each match highlighted.
pub open spec fn highlight_pieces(ranges: Seq<(usize, usize)>, n: nat) -> (Seq<(usize, usize, bool)>, usize)
    decreases n,
{
    if n == 0 {
        (Seq::empty(), 0)
    } else {
        let (prev, last) = highlight_pieces(ranges, (n - 1) as nat);
        let (s, e) = ranges[n - 1];
        let gap = if s > last { seq![(last, s, false)] } else { Seq::empty() };
        (prev + gap + seq![(s, e, true)], e)
    }
}

/// All pieces of a line of `len` bytes: those of the matches, the tail
/// after the last match, and the whole line, plain, when there is nothing
/// else.
pub open spec fn highlight_spec(ranges: Seq<(usize, usize)>, len: usize) -> Seq<(usize, usize, bool)> {
    let (pieces, last) = highlight_pieces(ranges, ranges.len());
    let all = if last < len { pieces.push((last, len, false)) } else { pieces };
    if all.len() == 0 { seq![(0, len, false)] } else { all }
}

/// `pieces` cover `from..to` with no gap or overlap, in order.
pub open spec fn tiles(pieces: Seq<(usize, usize, bool)>, from: nat, to: nat) -> bool {
    if pieces.len() == 0 {
        from == to
    } else {
        &&& pieces[0].0 == from
        &&& pieces.last().1 == to
        &&& forall|k: int| 0 <= k < pieces.len() ==> #[trigger] pieces[k].0 <= pieces[k].1
        &&& forall|k: int| 0 <= k < pieces.len() - 1 ==> #[trigger] pieces[k].1 == pieces[k + 1].0
    }
}

proof fn lemma_pieces_tile(ranges: Seq<(usize, usize)>, len: nat, n: nat)
    requires
        ranges_ordered(ranges, len),
        n <= ranges.len(),
    ensures
        tiles(highlight_pieces(ranges, n).0, 0, highlight_pieces(ranges, n).1 as nat),
        highlight_pieces(ranges, n).1 == (if n == 0 { 0 } else { ranges[n - 1].1 }),
        highlight_pieces(ranges, n).1 <= len,
        forall|k: int| 0 <= k < highlight_pieces(ranges, n).0.len() && #[trigger] highlight_pieces(ranges, n).0[k].2
            ==> exists|j: int| 0 <= j < n && ranges[j] == (highlight_pieces(ranges, n).0[k].0, highlight_pieces(ranges, n).0[k].1),
    decreases n,
{
    if n > 0 {
        lemma_pieces_tile(ranges, len, (n - 1) as nat);
        let (prev, last) = highlight_pieces(ranges, (n - 1) as nat);
        let (st, e) = ranges[n - 1];
        if n >= 2 {
            assert(ranges[n - 2].1 <= ranges[n - 1].0);
        }
        let gap = if st > last { seq![(last, st, false)] } else { Seq::empty() };
        let cur = prev + gap + seq![(st, e, true)];
        assert(cur == highlight_pieces(ranges, n).0);
        assert forall|k: int| 0 <= k < cur.len() && #[trigger] cur[k].2 implies
            exists|j: int| 0 <= j < n && ranges[j] == (cur[k].0, cur[k].1) by {
            if k < prev.len() {
                assert(cur[k] == prev[k]);
            } else if k == cur.len() - 1 {
                assert(ranges[n - 1] == (cur[k].0, cur[k].1));
            } else {
                assert(cur[k] == gap[k - prev.len()]);
            }
        }
        assert forall|k: int| 0 <= k < cur.len() - 1 implies #[trigger] cur[k].1 == cur[k + 1].0 by {
            if k < prev.len() - 1 {
                assert(cur[k] == prev[k] && cur[k + 1] == prev[k + 1]);
            } else if k == prev.len() - 1 {
                assert(cur[k] == prev[k]);
            }
        }
        assert forall|k: int| 0 <= k < cur.len() implies #[trigger] cur[k].0 <= cur[k].1 by {
            if k < prev.len() {
                assert(cur[k] == prev[k]);
            }
        }
    }
}

/// The pieces of a highlighted line cover the whole line, in order, with no
/// gap or overlap, and every highlighted piece is one of the matches: the
/// text is drawn once, whatever the matches are.
pub proof fn lemma_highlight_covers_line(ranges: Seq<(usize, usize)>, len: usize)
    requires
        ranges_ordered(ranges, len as nat),
    ensures
        highlight_spec(ranges, len).len() > 0,
        tiles(highlight_spec(ranges, len), 0, len as nat),
        forall|k: int| 0 <= k < highlight_spec(ranges, len).len() && #[trigger] highlight_spec(ranges, len)[k].2
            ==> exists|j: int| 0 <= j < ranges.len()
                && ranges[j] == (highlight_spec(ranges, len)[k].0, highlight_spec(ranges, len)[k].1),
{
    lemma_pieces_tile(ranges, len as nat, ranges.len());
    let (pieces, last) = highlight_pieces(ranges, ranges.len());
    let all = if last < len { pieces.push((last, len, false)) } else { pieces };
    if last < len {
        assert forall|k: int| 0 <= k < all.len() - 1 implies #[trigger] all[k].1 == all[k + 1].0 by {
            if k < pieces.len() - 1 {
                assert(all[k] == pieces[k] && all[k + 1] == pieces[k + 1]);
            } else {
                assert(all[k] == pieces[k]);
            }
        }
        assert forall|k: int| 0 <= k < all.len() implies #[trigger] all[k].0 <= all[k].1 by {
            if k < pieces.len() {
                assert(all[k] == pieces[k]);
            }
        }
        assert forall|k: int| 0 <= k < all.len() && #[trigger] all[k].2 implies
            exists|j: int| 0 <= j < ranges.len() && ranges[j] == (all[k].0, all[k].1) by {
            assert(all[k] == pieces[k]);
        }
    }
}

/// Split a content line into the byte ranges to draw plain and the ranges
/// to highlight as matches of the pattern.
pub fn highlight_ranges(pattern: &SearchPattern, text: &str) -> (r: Vec<(usize, usize, bool)>)
    ensures
        r@ == highlight_spec(pattern_match_ranges(pattern@, text@), text.spec_bytes().len() as usize),
{
    let ranges = match_ranges(pattern, text);
    let len = text.as_bytes().len();
    let mut result: Vec<(usize, usize, bool)> = Vec::new();
    let mut last_end: usize = 0;
    let mut i: usize = 0;
    while i < ranges.len()
        invariant
            i <= ranges@.len(),
            (result@, last_end) == highlight_pieces(ranges@, i as nat),
        decreases ranges@.len() - i,
    {
        let (s, e) = ranges[i];
        let ghost prev = result@;
        if s > last_end {
            result.push((last_end, s, false));
        }
        result.push((s, e, true));
        proof {
            let gap = if s > last_end { seq![(last_end, s, false)] } else { Seq::<(usize, usize, bool)>::empty() };
            assert(result@ =~= prev + gap + seq![(s, e, true)]);
        }
        last_end = e;
        i = i + 1;
    }
    if last_end < len {
        result.push((last_end, len, false));
    }
    if result.len() == 0 {
        result.push((0, len, false));
        assert(result@ =~= seq![(0usize, len, false)]);
    }
    result
}

} // verus!
