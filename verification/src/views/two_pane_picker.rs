//! Shared pieces of the wide two-pane picker dialogs (a multi-select list on
//! the left, a preview of the highlighted row on the right).

use vstd::prelude::*;

verus! {

/// Columns consumed by the cursor marker + selection checkbox prefix
/// ("▸ [x] "), which callers must reserve when sizing their own label text.
pub const LIST_ROW_PREFIX_WIDTH: usize = 6;

/// The first `/` at or after position `i` whose following tail, behind a
/// two-column `…/`, fits in `max` columns.
pub open spec fn fitting_slash_from(p: Seq<char>, max: nat, i: int) -> Option<int>
    decreases p.len() - i,
{
    if i < 0 || i >= p.len() {
        None
    } else if p[i] == '/' && 2 + (p.len() - (i + 1)) <= max {
        Some(i)
    } else {
        fitting_slash_from(p, max, i + 1)
    }
}

/// `path` shortened to at most `max` columns by eliding leading directory
/// components: `…/<tail>` with the longest fitting run of whole trailing
/// components, else `…` and the last `max - 1` characters; nothing at all
/// when there is no column to spare.
pub open spec fn elided(p: Seq<char>, max: nat) -> Seq<char> {
    if p.len() <= max {
        p
    } else if max == 0 {
        Seq::empty()
    } else {
        match fitting_slash_from(p, max, 0) {
            Some(i) => seq!['\u{2026}', '/'] + p.skip(i + 1),
            None => seq!['\u{2026}'] + p.skip(p.len() - (max - 1)),
        }
    }
}

proof fn lemma_fitting_slash_from(p: Seq<char>, max: nat, i: int, j: int)
    requires
        0 <= i <= j <= p.len(),
        forall|k: int| i <= k < j ==> !(p[k] == '/' && 2 + (p.len() - (k + 1)) <= max),
    ensures
        fitting_slash_from(p, max, i) == fitting_slash_from(p, max, j),
    decreases j - i,
{
    if i < j {
        lemma_fitting_slash_from(p, max, i + 1, j);
    }
}

/// A fitting `/` found from position `i` is a `/` at or after `i` whose tail
/// fits.
pub proof fn lemma_fitting_slash_fits(p: Seq<char>, max: nat, i: int)
    ensures
        fitting_slash_from(p, max, i) matches Some(k) ==> i <= k < p.len() && p[k] == '/'
            && 2 + (p.len() - (k + 1)) <= max,
    decreases p.len() - i,
{
    if 0 <= i < p.len() && !(p[i] == '/' && 2 + (p.len() - (i + 1)) <= max) {
        lemma_fitting_slash_fits(p, max, i + 1);
    }
}

/// Shorten `path` to at most `max` display columns for a list row by eliding
/// leading directory components (front ellipsis), so the filename and its
/// nearest parents — the parts that identify the file — stay visible.
///
/// Elision happens on `/` boundaries: the result is `…/<tail>` where `<tail>`
/// is the longest run of whole trailing components that fits. If even the
/// basename is too wide, the path's trailing characters are kept with a
/// leading ellipsis as a last resort. A budget of zero columns gives the
/// empty string: the result is never wider than `max`.
pub fn elide_path(path: &str, max: usize) -> (r: String)
    ensures
        r@ == elided(path@, max as nat),
        r@.len() <= max,
{
    let total = path.unicode_len();
    if total <= max {
        return String::from_str(path);
    }
    if max == 0 {
        return String::new();
    }
    let mut i: usize = 0;
    while i < total
        invariant
            total == path@.len(),
            total > max,
            i <= total,
            fitting_slash_from(path@, max as nat, 0) == fitting_slash_from(path@, max as nat, i as int),
        decreases total - i,
    {
        if path.get_char(i) == '/' && total - (i + 1) <= max && 2 <= max - (total - (i + 1)) {
            let suffix = path.substring_char(i + 1, total);
            let mut out = String::new();
            crate::text::push_char(&mut out, '\u{2026}');
            crate::text::push_char(&mut out, '/');
            out.append(suffix);
            assert(out@ =~= seq!['\u{2026}', '/'] + path@.skip(i + 1));
            return out;
        }
        proof { lemma_fitting_slash_from(path@, max as nat, i as int, i + 1); }
        i = i + 1;
    }
    let keep = max - 1;
    let tail = path.substring_char(total - keep, total);
    let mut out = String::new();
    crate::text::push_char(&mut out, '\u{2026}');
    out.append(tail);
    assert(out@ =~= seq!['\u{2026}'] + path@.skip(total - keep));
    out
}


/// Every entry is smaller than the next.
pub open spec fn strictly_ascending(s: Seq<usize>) -> bool {
    forall|i: int, j: int| 0 <= i < j < s.len() ==> s[i] < s[j]
}

/// The texts of a list of strings.
pub open spec fn string_views(v: Seq<String>) -> Seq<Seq<char>> {
    Seq::new(v.len(), |i: int| v[i]@)
}

/// Marks row `x` when it was not marked, unmarks it when it was; the marks
/// stay ascending and without repeats.
pub fn toggle_mark(marks: &mut Vec<usize>, x: usize)
    requires
        strictly_ascending(old(marks)@),
    ensures
        strictly_ascending(final(marks)@),
        forall|y: usize| final(marks)@.contains(y) <==> (old(marks)@.contains(y) != (y == x)),
{
    let n = marks.len();
    let mut p: usize = 0;
    while p < n && marks[p] < x
        invariant
            n == marks@.len(),
            p <= n,
            forall|j: int| 0 <= j < p ==> marks@[j] < x,
        decreases n - p,
    {
        p = p + 1;
    }
    let ghost before = marks@;
    if p < n && marks[p] == x {
        marks.remove(p);
        proof {
            let after = marks@;
            assert(after == before.remove(p as int));
            assert forall|y: usize| after.contains(y) <==> (before.contains(y) != (y == x)) by {
                if after.contains(y) {
                    let k = choose|k: int| 0 <= k < after.len() && after[k] == y;
                    if k < p { assert(before[k] == y); } else { assert(before[k + 1] == y); }
                    if y == x {
                        if k < p { assert(before[k] < x); } else { assert(before[p as int] < before[k + 1]); }
                    }
                }
                if before.contains(y) && y != x {
                    let k = choose|k: int| 0 <= k < before.len() && before[k] == y;
                    if k < p { assert(after[k] == y); } else if k > p { assert(after[k - 1] == y); }
                }
            }
        }
    } else {
        marks.insert(p, x);
        proof {
            let after = marks@;
            assert(after == before.insert(p as int, x));
            assert(after[p as int] == x);
            assert forall|i: int, j: int| 0 <= i < j < after.len() implies after[i] < after[j] by {
                if j < p {
                    assert(after[i] == before[i] && after[j] == before[j]);
                } else if j == p {
                    assert(after[i] == before[i]);
                } else if i == p {
                    assert(after[j] == before[j - 1]);
                    assert(before[p as int] >= x);
                    if p < j - 1 { assert(before[p as int] < before[j - 1]); }
                    assert(before[p as int] != x);
                } else if i < p {
                    assert(after[i] == before[i] && after[j] == before[j - 1]);
                } else {
                    assert(after[i] == before[i - 1] && after[j] == before[j - 1]);
                }
            }
            assert forall|y: usize| after.contains(y) <==> (before.contains(y) != (y == x)) by {
                if before.contains(y) {
                    let k = choose|k: int| 0 <= k < before.len() && before[k] == y;
                    if k < p { assert(after[k] == y); } else { assert(after[k + 1] == y); }
                    if y == x {
                        if k < p { assert(before[k] < x); } else {
                            assert(before[p as int] != x);
                            assert(before[p as int] >= x);
                            if k > p { assert(before[p as int] < before[k]); }
                        }
                    }
                }
                if after.contains(y) && y != x {
                    let k = choose|k: int| 0 <= k < after.len() && after[k] == y;
                    if k < p { assert(before[k] == y); } else if k > p { assert(before[k - 1] == y); }
                }
            }
        }
    }
}

/// Scroll `offset` so that `index` is inside a pane `vh` rows high, then
/// clamp to `max`; unchanged while the pane is not measured yet.
pub open spec fn scrolled_into_view(offset: nat, max: nat, vh: nat, top: nat, bottom: nat) -> nat {
    if vh == 0 {
        offset
    } else {
        let o: nat = if top < offset {
            top
        } else if bottom >= offset + vh {
            (bottom + 1 - vh) as nat
        } else {
            offset
        };
        if o <= max { o } else { max }
    }
}

} // verus!
