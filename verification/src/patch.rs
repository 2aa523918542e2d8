//! Splicing diff hunks into file contents.
//!
//! A hunk is taken as plain values (where it starts in the old file, how many
//! old lines it covers, and its lines with their diff origin), so the splice
//! arithmetic is independent of any diff library.

use vstd::prelude::*;
use crate::diff::DeltaStatus;
use vstd::seq_lib::lemma_flatten_concat;

verus! {

/// One line of a hunk: its diff origin (`' '` context, `'+'` added, `'-'`
/// removed, or another marker) and its bytes including any line terminator.
#[derive(Clone, Debug)]
pub struct HunkLine {
    pub origin: char,
    pub content: Vec<u8>,
}

/// One diff hunk: 1-based start line in the old file, number of old lines it
/// replaces, and its lines.
#[derive(Clone, Debug)]
pub struct Hunk {
    pub old_start: u32,
    pub old_lines: u32,
    pub lines: Vec<HunkLine>,
}

/// Index of the first newline byte of `s`, or `s.len()` when there is none.
pub open spec fn find_newline(s: Seq<u8>) -> nat
    decreases s.len(),
{
    if s.len() == 0 {
        0
    } else if s[0] == 10u8 {
        0
    } else {
        1 + find_newline(s.drop_first())
    }
}

/// The lines of `d`, each keeping its terminating newline; a final line
/// without one is kept as is, and empty input has no lines.
pub open spec fn split_lines(d: Seq<u8>) -> Seq<Seq<u8>>
    decreases d.len(),
{
    if d.len() == 0 {
        Seq::empty()
    } else {
        let k = find_newline(d) as int;
        if k < d.len() {
            seq![d.take(k + 1)] + split_lines(d.skip(k + 1))
        } else {
            seq![d]
        }
    }
}

proof fn lemma_find_newline(s: Seq<u8>, i: int)
    requires
        0 <= i <= s.len(),
        forall|j: int| 0 <= j < i ==> s[j] != 10u8,
        i == s.len() || s[i] == 10u8,
    ensures
        find_newline(s) == i,
    decreases s.len(),
{
    if s.len() > 0 && i > 0 {
        let t = s.drop_first();
        assert forall|j: int| 0 <= j < i - 1 implies t[j] != 10u8 by {
            assert(t[j] == s[j + 1]);
        }
        lemma_find_newline(t, i - 1);
    }
}

/// Splitting into lines and joining them again gives back the input.
pub proof fn lemma_split_lines_flatten(d: Seq<u8>)
    ensures
        split_lines(d).flatten() == d,
    decreases d.len(),
{
    if d.len() > 0 {
        let k = find_newline(d) as int;
        if k < d.len() {
            lemma_split_lines_flatten(d.skip(k + 1));
            lemma_flatten_concat(seq![d.take(k + 1)], split_lines(d.skip(k + 1)));
            seq![d.take(k + 1)].lemma_flatten_one_element();
            assert(d.take(k + 1) + d.skip(k + 1) =~= d);
        } else {
            seq![d].lemma_flatten_one_element();
        }
    }
}

proof fn lemma_find_newline_props(s: Seq<u8>)
    ensures
        find_newline(s) <= s.len(),
        forall|j: int| 0 <= j < find_newline(s) ==> s[j] != 10u8,
        find_newline(s) < s.len() ==> s[find_newline(s) as int] == 10u8,
    decreases s.len(),
{
    if s.len() > 0 && s[0] != 10u8 {
        let t = s.drop_first();
        lemma_find_newline_props(t);
        assert forall|j: int| 0 <= j < find_newline(s) implies s[j] != 10u8 by {
            if j > 0 {
                assert(s[j] == t[j - 1]);
            }
        }
        if find_newline(s) < s.len() {
            assert(s[find_newline(s) as int] == t[find_newline(t) as int]);
        }
    }
}

/// Lines as split: none is empty, a newline byte ends a line and stands
/// nowhere else in it, and every line but the last ends with one.
pub open spec fn lines_well_split(ls: Seq<Seq<u8>>) -> bool {
    &&& forall|i: int| 0 <= i < ls.len() ==> #[trigger] ls[i].len() > 0
    &&& forall|i: int, j: int| 0 <= i < ls.len() && 0 <= j < ls[i].len() - 1 ==> #[trigger] ls[i][j] != 10u8
    &&& forall|i: int| 0 <= i < ls.len() - 1 ==> #[trigger] ls[i].last() == 10u8
}

/// The lines of any input are well split and join back to the input:
/// nothing is added or lost, and each keeps its own terminator.
pub proof fn lemma_split_lines_shape(d: Seq<u8>)
    ensures
        lines_well_split(split_lines(d)),
        split_lines(d).flatten() == d,
    decreases d.len(),
{
    lemma_split_lines_flatten(d);
    if d.len() > 0 {
        lemma_find_newline_props(d);
        let k = find_newline(d) as int;
        if k < d.len() {
            let head = d.take(k + 1);
            let rest = split_lines(d.skip(k + 1));
            lemma_split_lines_shape(d.skip(k + 1));
            let ls = seq![head] + rest;
            assert(split_lines(d) == ls);
            assert forall|i: int| 0 <= i < ls.len() implies #[trigger] ls[i].len() > 0 by {
                if i > 0 {
                    assert(ls[i] == rest[i - 1]);
                }
            }
            assert forall|i: int, j: int| 0 <= i < ls.len() && 0 <= j < ls[i].len() - 1
                implies #[trigger] ls[i][j] != 10u8 by {
                if i == 0 {
                    assert(ls[0] == head);
                    assert(head[j] == d[j]);
                } else {
                    assert(ls[i] == rest[i - 1]);
                }
            }
            assert forall|i: int| 0 <= i < ls.len() - 1 implies #[trigger] ls[i].last() == 10u8 by {
                if i == 0 {
                    assert(ls[0] == head);
                    assert(head.last() == d[k]);
                } else {
                    assert(ls[i] == rest[i - 1]);
                }
            }
        } else {
            let ls = seq![d];
            assert(split_lines(d) == ls);
            assert forall|i: int, j: int| 0 <= i < ls.len() && 0 <= j < ls[i].len() - 1
                implies #[trigger] ls[i][j] != 10u8 by {
                assert(ls[i] == d);
            }
        }
    }
}

/// The views of a list of byte slices.
pub open spec fn slice_views(v: Seq<&[u8]>) -> Seq<Seq<u8>> {
    Seq::new(v.len(), |i: int| v[i]@)
}

/// Split raw bytes into lines keeping each `\n` terminator attached.
pub fn split_lines_keep_eol(data: &[u8]) -> (lines: Vec<&[u8]>)
    ensures
        slice_views(lines@) == split_lines(data@),
        lines_well_split(slice_views(lines@)),
        slice_views(lines@).flatten() == data@,
{
    proof { lemma_split_lines_shape(data@); }
    let n = data.len();
    let mut lines: Vec<&[u8]> = Vec::new();
    let mut start: usize = 0;
    let mut i: usize = 0;
    assert(data@.skip(0) =~= data@);
    assert(slice_views(lines@) =~= Seq::<Seq<u8>>::empty());
    while i < n
        invariant
            n == data@.len(),
            start <= i <= n,
            forall|j: int| start <= j < i ==> data@[j] != 10u8,
            slice_views(lines@) + split_lines(data@.skip(start as int)) =~= split_lines(data@),
        decreases n - i,
    {
        if data[i] == 10u8 {
            let ghost rest = data@.skip(start as int);
            proof {
                lemma_find_newline(rest, (i - start) as int);
                assert(rest.take((i - start + 1) as int) =~= data@.subrange(start as int, i + 1));
                assert(rest.skip((i - start + 1) as int) =~= data@.skip(i + 1));
            }
            let ghost before = slice_views(lines@);
            lines.push(&data[start..i + 1]);
            assert(slice_views(lines@) =~= before.push(data@.subrange(start as int, i + 1)));
            start = i + 1;
        }
        i = i + 1;
    }
    let ghost rest = data@.skip(start as int);
    if start < n {
        proof {
            lemma_find_newline(rest, rest.len() as int);
            assert(data@.subrange(start as int, n as int) =~= rest);
        }
        let ghost before = slice_views(lines@);
        lines.push(&data[start..n]);
        assert(slice_views(lines@) =~= before.push(rest));
    } else {
        assert(rest.len() == 0);
    }
    lines
}


/// Flattening after appending one element appends its contents.
pub proof fn lemma_flatten_push(s: Seq<Seq<u8>>, x: Seq<u8>)
    ensures
        s.push(x).flatten() == s.flatten() + x,
{
    lemma_flatten_concat(s, seq![x]);
    seq![x].lemma_flatten_one_element();
    assert(s.push(x) =~= s + seq![x]);
}

/// Whether a hunk line survives into the new file (context or addition).
pub open spec fn is_kept(origin: char) -> bool {
    origin == ' ' || origin == '+'
}

/// The bytes a hunk line contributes to the new file.
pub open spec fn kept_bytes(l: HunkLine) -> Seq<u8> {
    if is_kept(l.origin) { l.content@ } else { Seq::empty() }
}

/// The new-side text of a hunk: its context and added lines, in order.
pub open spec fn replacement(lines: Seq<HunkLine>) -> Seq<u8> {
    Seq::new(lines.len(), |i: int| kept_bytes(lines[i])).flatten()
}

/// 0-based line index where a hunk's replacement is spliced in, clamped to
/// the number of lines `n`. For a pure insertion (`old_count == 0`) the text
/// goes after line `old_start`, otherwise line `old_start` is the first one
/// replaced.
pub open spec fn splice_start(old_start: nat, old_count: nat, n: nat) -> nat {
    let s: nat = if old_count == 0 {
        old_start
    } else if old_start > 0 {
        (old_start - 1) as nat
    } else {
        0
    };
    if s <= n { s } else { n }
}

/// `content` with one hunk applied: the lines before the splice point, the
/// hunk's new-side text, then the lines after the replaced ones.
pub open spec fn applied_hunk(content: Seq<u8>, old_start: nat, old_count: nat, lines: Seq<HunkLine>) -> Seq<u8> {
    let ls = split_lines(content);
    let start = splice_start(old_start, old_count, ls.len());
    let end: nat = if start + old_count <= ls.len() { start + old_count } else { ls.len() };
    ls.take(start as int).flatten() + replacement(lines) + ls.skip(end as int).flatten()
}

/// Appends the lines `from..to` of `lines` to `out`.
fn extend_with_lines(out: &mut Vec<u8>, lines: &Vec<&[u8]>, from: usize, to: usize)
    requires
        from <= to <= lines@.len(),
    ensures
        final(out)@ == old(out)@ + slice_views(lines@).subrange(from as int, to as int).flatten(),
{
    let ghost base = out@;
    let mut i = from;
    assert(slice_views(lines@).subrange(from as int, from as int) =~= Seq::<Seq<u8>>::empty());
    while i < to
        invariant
            from <= i <= to <= lines@.len(),
            out@ == base + slice_views(lines@).subrange(from as int, i as int).flatten(),
        decreases to - i,
    {
        let ghost sv = slice_views(lines@);
        proof {
            assert(sv.subrange(from as int, i + 1) =~= sv.subrange(from as int, i as int).push(sv[i as int]));
            lemma_flatten_push(sv.subrange(from as int, i as int), sv[i as int]);
        }
        out.extend_from_slice(lines[i]);
        assert(out@ =~= base + sv.subrange(from as int, i + 1).flatten());
        i = i + 1;
    }
}

/// Appends the new-side text of `hunk_lines` to `out`.
fn extend_with_replacement(out: &mut Vec<u8>, hunk_lines: &Vec<HunkLine>)
    ensures
        final(out)@ == old(out)@ + replacement(hunk_lines@),
{
    let ghost base = out@;
    let ghost pieces = Seq::new(hunk_lines@.len(), |i: int| kept_bytes(hunk_lines@[i]));
    let mut i: usize = 0;
    assert(pieces.take(0) =~= Seq::<Seq<u8>>::empty());
    while i < hunk_lines.len()
        invariant
            i <= hunk_lines@.len(),
            pieces == Seq::new(hunk_lines@.len(), |i: int| kept_bytes(hunk_lines@[i])),
            out@ == base + pieces.take(i as int).flatten(),
        decreases hunk_lines@.len() - i,
    {
        proof {
            assert(pieces.take(i + 1) =~= pieces.take(i as int).push(pieces[i as int]));
            lemma_flatten_push(pieces.take(i as int), pieces[i as int]);
        }
        let line = &hunk_lines[i];
        if line.origin == ' ' || line.origin == '+' {
            out.extend_from_slice(line.content.as_slice());
        }
        assert(out@ =~= base + pieces.take(i + 1).flatten());
        i = i + 1;
    }
    assert(pieces.take(hunk_lines@.len() as int) =~= pieces);
}

/// Apply one hunk to `content`, returning the new bytes.
///
/// Replacement splices in context + added lines, dropping deleted lines.
pub fn apply_hunk_to_content(content: &[u8], hunk: &Hunk) -> (r: Vec<u8>)
    ensures
        r@ == applied_hunk(content@, hunk.old_start as nat, hunk.old_lines as nat, hunk.lines@),
{
    let old_start = hunk.old_start as usize;
    let old_count = hunk.old_lines as usize;
    let lines = split_lines_keep_eol(content);
    let n = lines.len();
    // old_start is 1-based.  For a substitution or deletion (old_count > 0) it
    // is the first line to remove, so the 0-based index is old_start-1.
    // For a pure insertion (old_count == 0) git convention says "insert after
    // line old_start", so the splice point is old_start (0-based).
    let start = if old_count == 0 {
        if old_start <= n { old_start } else { n }
    } else {
        let s = if old_start > 0 { old_start - 1 } else { 0 };
        if s <= n { s } else { n }
    };
    let end = if old_count <= n - start { start + old_count } else { n };
    let mut result: Vec<u8> = Vec::new();
    extend_with_lines(&mut result, &lines, 0, start);
    extend_with_replacement(&mut result, &hunk.lines);
    extend_with_lines(&mut result, &lines, end, n);
    proof {
        let ls = slice_views(lines@);
        assert(ls.subrange(0, start as int) =~= ls.take(start as int));
        assert(ls.subrange(end as int, n as int) =~= ls.skip(end as int));
    }
    result
}


/// Applying one hunk replaces exactly its old lines: for a hunk replacing
/// `old_count > 0` lines from 1-based line `old_start` (all within the
/// content), the lines before it and the lines after its last old line
/// come out unchanged around the hunk's new text; a pure insertion
/// (`old_count == 0`) after line `old_start` removes nothing. Also, the
/// content is those same before/old/after lines, so only the old ones went.
pub proof fn lemma_hunk_replaces_its_old_lines(content: Seq<u8>, old_start: nat, old_count: nat, lines: Seq<HunkLine>)
    ensures
        ({
            let ls = split_lines(content);
            &&& old_count > 0 && 1 <= old_start && old_start - 1 + old_count <= ls.len() ==> {
                &&& applied_hunk(content, old_start, old_count, lines) == ls.subrange(0, old_start - 1).flatten()
                    + replacement(lines) + ls.subrange(old_start - 1 + old_count, ls.len() as int).flatten()
                &&& content == ls.subrange(0, old_start - 1).flatten()
                    + ls.subrange(old_start - 1, old_start - 1 + old_count).flatten()
                    + ls.subrange(old_start - 1 + old_count, ls.len() as int).flatten()
            }
            &&& old_count == 0 && old_start <= ls.len() ==> applied_hunk(content, old_start, old_count, lines)
                == ls.subrange(0, old_start as int).flatten() + replacement(lines)
                + ls.subrange(old_start as int, ls.len() as int).flatten()
        }),
{
    let ls = split_lines(content);
    lemma_split_lines_flatten(content);
    if old_count > 0 && 1 <= old_start && old_start - 1 + old_count <= ls.len() {
        let a = old_start - 1;
        let b = old_start - 1 + old_count;
        assert(ls.take(a) =~= ls.subrange(0, a));
        assert(ls.skip(b) =~= ls.subrange(b, ls.len() as int));
        assert(ls =~= ls.subrange(0, a) + ls.subrange(a, b) + ls.subrange(b, ls.len() as int));
        lemma_flatten_concat(ls.subrange(0, a) + ls.subrange(a, b), ls.subrange(b, ls.len() as int));
        lemma_flatten_concat(ls.subrange(0, a), ls.subrange(a, b));
    }
    if old_count == 0 && old_start <= ls.len() {
        assert(ls.take(old_start as int) =~= ls.subrange(0, old_start as int));
        assert(ls.skip(old_start as int) =~= ls.subrange(old_start as int, ls.len() as int));
    }
}

/// Why a set of hunks could not be applied.
#[derive(Clone, Copy, Debug, PartialEq, Eq, Structural)]
pub enum PatchError {
    /// The hunk index named does not exist in the patch.
    NoSuchHunk(usize),
}

/// Old-file start of the hunk chosen at position `p` of `idx`.
pub open spec fn start_at(hs: Seq<Hunk>, idx: Seq<usize>, p: int) -> nat {
    hs[idx[p] as int].old_start as nat
}

/// Position `p` sorts before position `q`: by hunk start, ties kept in the
/// order the hunks were named.
pub open spec fn sorts_before(hs: Seq<Hunk>, idx: Seq<usize>, p: int, q: int) -> bool {
    start_at(hs, idx, p) < start_at(hs, idx, q)
        || (start_at(hs, idx, p) == start_at(hs, idx, q) && p < q)
}

/// `ord` lists every position of `idx` once, ordered by hunk start (stable).
pub open spec fn is_sorted_order(hs: Seq<Hunk>, idx: Seq<usize>, ord: Seq<usize>) -> bool {
    &&& ord.len() == idx.len()
    &&& forall|i: int| 0 <= i < ord.len() ==> #[trigger] ord[i] < idx.len()
    &&& forall|i: int, j: int|
        0 <= i < j < ord.len() ==> sorts_before(hs, idx, #[trigger] ord[i] as int, #[trigger] ord[j] as int)
    &&& forall|p: int| 0 <= p < idx.len() ==> #[trigger] occurs(ord, p)
}

/// `p` appears somewhere in `ord`.
pub open spec fn occurs(ord: Seq<usize>, p: int) -> bool {
    exists|i: int| 0 <= i < ord.len() && #[trigger] ord[i] == p
}

/// All named hunk indices exist.
pub open spec fn indices_valid(hs: Seq<Hunk>, idx: Seq<usize>) -> bool {
    forall|i: int| 0 <= i < idx.len() ==> #[trigger] idx[i] < hs.len()
}

/// The hunk at sweep step `k`.
pub open spec fn hunk_at(hs: Seq<Hunk>, idx: Seq<usize>, ord: Seq<usize>, k: int) -> Hunk {
    hs[idx[ord[k] as int] as int]
}

/// Where a hunk's replacement goes among `n` lines.
pub open spec fn hunk_splice(h: Hunk, n: nat) -> nat {
    splice_start(h.old_start as nat, h.old_lines as nat, n)
}

/// Sweeping top to bottom from line `pos`, every hunk starts at or after the
/// lines already consumed and the last one ends within the file.
pub open spec fn sweep_ok(ls: Seq<Seq<u8>>, hs: Seq<Hunk>, idx: Seq<usize>, ord: Seq<usize>, pos: nat) -> bool
    decreases ord.len(),
{
    if ord.len() == 0 {
        pos <= ls.len()
    } else {
        let h = hunk_at(hs, idx, ord, 0);
        let ss = hunk_splice(h, ls.len());
        pos <= ss && sweep_ok(ls, hs, idx, ord.drop_first(), ss + h.old_lines as nat)
    }
}

/// The text produced by sweeping from line `pos`: untouched lines up to each
/// hunk, the hunk's new-side text, then on past the lines it replaces.
pub open spec fn sweep(ls: Seq<Seq<u8>>, hs: Seq<Hunk>, idx: Seq<usize>, ord: Seq<usize>, pos: nat) -> Seq<u8>
    decreases ord.len(),
{
    if ord.len() == 0 {
        ls.skip(pos as int).flatten()
    } else {
        let h = hunk_at(hs, idx, ord, 0);
        let ss = hunk_splice(h, ls.len());
        ls.subrange(pos as int, ss as int).flatten() + replacement(h.lines@)
            + sweep(ls, hs, idx, ord.drop_first(), ss + h.old_lines as nat)
    }
}

/// A feasible sweep never moves past the end of the file.
pub proof fn lemma_sweep_ok_bound(ls: Seq<Seq<u8>>, hs: Seq<Hunk>, idx: Seq<usize>, ord: Seq<usize>, pos: nat)
    requires
        sweep_ok(ls, hs, idx, ord, pos),
    ensures
        pos <= ls.len(),
        ord.len() > 0 ==> hunk_splice(hunk_at(hs, idx, ord, 0), ls.len())
            + hunk_at(hs, idx, ord, 0).old_lines <= ls.len(),
    decreases ord.len(),
{
    if ord.len() > 0 {
        let h = hunk_at(hs, idx, ord, 0);
        lemma_sweep_ok_bound(ls, hs, idx, ord.drop_first(), hunk_splice(h, ls.len()) + h.old_lines as nat);
    }
}

/// There is only one sorted order, so a result described through one is
/// described exactly.
pub proof fn lemma_sorted_order_unique(hs: Seq<Hunk>, idx: Seq<usize>, a: Seq<usize>, b: Seq<usize>)
    requires
        is_sorted_order(hs, idx, a),
        is_sorted_order(hs, idx, b),
    ensures
        a == b,
{
    if a != b {
        assert(!(a =~= b));
        let i = choose|i: int| 0 <= i < a.len() && a[i] != b[i];
        assert(exists|i: int| 0 <= i < a.len() && a[i] != b[i]);
        // take the first difference
        let first = choose|i: int| 0 <= i < a.len() && a[i] != b[i]
            && forall|k: int| 0 <= k < i ==> a[k] == b[k];
        assert(exists|i: int| 0 <= i < a.len() && a[i] != b[i]
            && forall|k: int| 0 <= k < i ==> a[k] == b[k]) by {
            lemma_first_difference(a, b, i);
        }
        let pa = a[first] as int;
        let pb = b[first] as int;
        assert(a[first] < idx.len());
        assert(b[first] < idx.len());
        let ja = choose|j: int| 0 <= j < b.len() && b[j] == pa;
        let jb = choose|j: int| 0 <= j < a.len() && a[j] == pb;
        assert(occurs(b, pa));
        assert(occurs(a, pb));
        if ja < first {
            assert(a[ja] == b[ja]);
            assert(sorts_before(hs, idx, a[ja] as int, a[first] as int));
        } else if jb < first {
            assert(a[jb] == b[jb]);
            assert(sorts_before(hs, idx, b[jb] as int, b[first] as int));
        } else {
            assert(ja > first);
            assert(jb > first);
            assert(sorts_before(hs, idx, b[first] as int, b[ja] as int));
            assert(sorts_before(hs, idx, a[first] as int, a[jb] as int));
        }
    }
}

proof fn lemma_first_difference(a: Seq<usize>, b: Seq<usize>, i: int)
    requires
        0 <= i < a.len(),
        a.len() == b.len(),
        a[i] != b[i],
    ensures
        exists|f: int| 0 <= f < a.len() && a[f] != b[f]
            && forall|k: int| 0 <= k < f ==> a[k] == b[k],
    decreases i,
{
    if exists|k: int| 0 <= k < i && a[k] != b[k] {
        let k = choose|k: int| 0 <= k < i && a[k] != b[k];
        lemma_first_difference(a, b, k);
    } else {
        assert(forall|k: int| 0 <= k < i ==> a[k] == b[k]);
    }
}

/// Insertion-sorts the positions of `idx` by hunk start, stably.
fn sort_positions(hunks: &[Hunk], idx: &[usize]) -> (ord: Vec<usize>)
    requires
        indices_valid(hunks@, idx@),
    ensures
        is_sorted_order(hunks@, idx@, ord@),
{
    let m = idx.len();
    let mut ord: Vec<usize> = Vec::new();
    let mut p: usize = 0;
    while p < m
        invariant
            m == idx@.len(),
            p <= m,
            indices_valid(hunks@, idx@),
            ord@.len() == p,
            forall|i: int| 0 <= i < ord@.len() ==> #[trigger] ord@[i] < p,
            forall|i: int, j: int|
                0 <= i < j < ord@.len() ==> sorts_before(hunks@, idx@, #[trigger] ord@[i] as int, #[trigger] ord@[j] as int),
            forall|q: int| 0 <= q < p ==> #[trigger] occurs(ord@, q),
        decreases m - p,
    {
        let key = hunks[idx[p]].old_start;
        let mut pos: usize = 0;
        while pos < ord.len() && hunks[idx[ord[pos]]].old_start <= key
            invariant
                m == idx@.len(),
                p < m,
                indices_valid(hunks@, idx@),
                key == hunks@[idx@[p as int] as int].old_start,
                pos <= ord@.len(),
                forall|i: int| 0 <= i < ord@.len() ==> #[trigger] ord@[i] < p,
                forall|i: int| 0 <= i < pos ==> start_at(hunks@, idx@, #[trigger] ord@[i] as int) <= key,
            decreases ord@.len() - pos,
        {
            pos = pos + 1;
        }
        let ghost old_ord = ord@;
        proof {
            // everything from `pos` on starts later than `key`
            assert forall|i: int| pos <= i < old_ord.len() implies start_at(hunks@, idx@, #[trigger] old_ord[i] as int) > key by {
                if pos < old_ord.len() {
                    assert(start_at(hunks@, idx@, old_ord[pos as int] as int) > key);
                    if i > pos {
                        assert(sorts_before(hunks@, idx@, old_ord[pos as int] as int, old_ord[i] as int));
                    }
                }
            }
        }
        ord.insert(pos, p);
        proof {
            let o = ord@;
            assert(o == old_ord.insert(pos as int, p));
            assert forall|i: int| 0 <= i < o.len() implies #[trigger] o[i] < p + 1 by {
                if i < pos { assert(o[i] == old_ord[i]); } else if i > pos { assert(o[i] == old_ord[i - 1]); }
            }
            assert forall|i: int, j: int| 0 <= i < j < o.len() implies sorts_before(hunks@, idx@, #[trigger] o[i] as int, #[trigger] o[j] as int) by {
                if j < pos {
                    assert(o[i] == old_ord[i] && o[j] == old_ord[j]);
                } else if j == pos {
                    assert(o[i] == old_ord[i]);
                    assert(start_at(hunks@, idx@, old_ord[i] as int) <= key);
                } else if i == pos {
                    assert(o[j] == old_ord[j - 1]);
                    assert(start_at(hunks@, idx@, old_ord[j - 1] as int) > key);
                } else if i < pos {
                    assert(o[i] == old_ord[i] && o[j] == old_ord[j - 1]);
                } else {
                    assert(o[i] == old_ord[i - 1] && o[j] == old_ord[j - 1]);
                }
            }
            assert forall|q: int| 0 <= q < p + 1 implies #[trigger] occurs(o, q) by {
                if q == p {
                    assert(o[pos as int] == p);
                } else {
                    assert(occurs(old_ord, q));
                    let i = choose|i: int| 0 <= i < old_ord.len() && #[trigger] old_ord[i] == q;
                    if i < pos { assert(o[i] == q); } else { assert(o[i + 1] == q); }
                }
            }
        }
        p = p + 1;
    }
    ord
}

/// The hunk indices in sweep order.
pub open spec fn swept_hunks(idx: Seq<usize>, ord: Seq<usize>) -> Seq<usize> {
    Seq::new(ord.len(), |k: int| idx[ord[k] as int])
}

/// No two named hunks start on the same line.
pub open spec fn starts_distinct(hs: Seq<Hunk>, idx: Seq<usize>) -> bool {
    forall|i: int, j: int| 0 <= i < idx.len() && 0 <= j < idx.len() && i != j
        ==> #[trigger] hs[idx[i] as int].old_start != #[trigger] hs[idx[j] as int].old_start
}

/// A sweep depends only on which hunks it visits, in order.
proof fn lemma_sweep_by_hunks(ls: Seq<Seq<u8>>, hs: Seq<Hunk>, idx1: Seq<usize>, ord1: Seq<usize>,
    idx2: Seq<usize>, ord2: Seq<usize>, pos: nat)
    requires
        swept_hunks(idx1, ord1) == swept_hunks(idx2, ord2),
    ensures
        sweep(ls, hs, idx1, ord1, pos) == sweep(ls, hs, idx2, ord2, pos),
        sweep_ok(ls, hs, idx1, ord1, pos) == sweep_ok(ls, hs, idx2, ord2, pos),
    decreases ord1.len(),
{
    assert(ord1.len() == swept_hunks(idx1, ord1).len());
    assert(ord2.len() == swept_hunks(idx2, ord2).len());
    if ord1.len() > 0 {
        assert(swept_hunks(idx1, ord1)[0] == swept_hunks(idx2, ord2)[0]);
        assert(swept_hunks(idx1, ord1)[0] == idx1[ord1[0] as int]);
        assert(swept_hunks(idx2, ord2)[0] == idx2[ord2[0] as int]);
        assert(hunk_at(hs, idx1, ord1, 0) == hunk_at(hs, idx2, ord2, 0));
        assert(swept_hunks(idx1, ord1.drop_first()) =~= swept_hunks(idx1, ord1).drop_first());
        assert(swept_hunks(idx2, ord2.drop_first()) =~= swept_hunks(idx2, ord2).drop_first());
        let h = hunk_at(hs, idx1, ord1, 0);
        lemma_sweep_by_hunks(ls, hs, idx1, ord1.drop_first(), idx2, ord2.drop_first(),
            hunk_splice(h, ls.len()) + h.old_lines as nat);
    }
}

/// In a sorted order of hunks with distinct starts, the visited hunks start
/// strictly further down each step.
proof fn lemma_swept_ascending(hs: Seq<Hunk>, idx: Seq<usize>, ord: Seq<usize>, i: int, j: int)
    requires
        is_sorted_order(hs, idx, ord),
        starts_distinct(hs, idx),
        0 <= i < j < ord.len(),
    ensures
        hs[swept_hunks(idx, ord)[i] as int].old_start < hs[swept_hunks(idx, ord)[j] as int].old_start,
{
    assert(sorts_before(hs, idx, ord[i] as int, ord[j] as int));
    assert(ord[i] < idx.len() && ord[j] < idx.len());
    if ord[i] != ord[j] {
        assert(hs[idx[ord[i] as int] as int].old_start != hs[idx[ord[j] as int] as int].old_start);
    }
}

/// Two lists of hunks, each visited in strictly rising start order, with the
/// same members, are the same list.
proof fn lemma_rising_by_members(hs: Seq<Hunk>, a: Seq<usize>, b: Seq<usize>)
    requires
        forall|i: int, j: int| 0 <= i < j < a.len() ==> hs[a[i] as int].old_start < hs[a[j] as int].old_start,
        forall|i: int, j: int| 0 <= i < j < b.len() ==> hs[b[i] as int].old_start < hs[b[j] as int].old_start,
        forall|x: usize| a.contains(x) <==> b.contains(x),
    ensures
        a == b,
    decreases a.len() + b.len(),
{
    if a.len() == 0 {
        if b.len() > 0 {
            assert(b.contains(b[0]));
        }
        assert(a =~= b);
    } else if b.len() == 0 {
        assert(a.contains(a[0]));
    } else {
        assert(a.contains(a[0]));
        assert(b.contains(b[0]));
        let ia = choose|i: int| 0 <= i < a.len() && a[i] == b[0];
        let ib = choose|i: int| 0 <= i < b.len() && b[i] == a[0];
        if ia > 0 {
            assert(hs[a[0] as int].old_start < hs[a[ia] as int].old_start);
            if ib > 0 {
                assert(hs[b[0] as int].old_start < hs[b[ib] as int].old_start);
            }
        }
        if ib > 0 {
            assert(hs[b[0] as int].old_start < hs[b[ib] as int].old_start);
        }
        assert(a[0] == b[0]);
        let (ra, rb) = (a.drop_first(), b.drop_first());
        assert forall|x: usize| ra.contains(x) <==> rb.contains(x) by {
            if ra.contains(x) {
                let i = choose|i: int| 0 <= i < ra.len() && ra[i] == x;
                assert(a[i + 1] == x && a.contains(x));
                let j = choose|j: int| 0 <= j < b.len() && b[j] == x;
                assert(hs[a[0] as int].old_start < hs[a[i + 1] as int].old_start);
                assert(j != 0);
                assert(rb[j - 1] == x);
            }
            if rb.contains(x) {
                let i = choose|i: int| 0 <= i < rb.len() && rb[i] == x;
                assert(b[i + 1] == x && b.contains(x));
                let j = choose|j: int| 0 <= j < a.len() && a[j] == x;
                assert(hs[b[0] as int].old_start < hs[b[i + 1] as int].old_start);
                assert(j != 0);
                assert(ra[j - 1] == x);
            }
        }
        assert forall|i: int, j: int| 0 <= i < j < ra.len() implies hs[ra[i] as int].old_start
            < hs[ra[j] as int].old_start by {
            assert(ra[i] == a[i + 1] && ra[j] == a[j + 1]);
        }
        assert forall|i: int, j: int| 0 <= i < j < rb.len() implies hs[rb[i] as int].old_start
            < hs[rb[j] as int].old_start by {
            assert(rb[i] == b[i + 1] && rb[j] == b[j + 1]);
        }
        lemma_rising_by_members(hs, ra, rb);
        assert forall|i: int| 0 <= i < a.len() implies a[i] == b[i] by {
            if i > 0 {
                assert(a[i] == ra[i - 1] && b[i] == rb[i - 1]);
            }
        }
        assert(a =~= b);
    }
}

/// The visited hunks are exactly the named ones.
proof fn lemma_swept_members(hs: Seq<Hunk>, idx: Seq<usize>, ord: Seq<usize>, x: usize)
    requires
        is_sorted_order(hs, idx, ord),
    ensures
        swept_hunks(idx, ord).contains(x) <==> idx.contains(x),
{
    let m = swept_hunks(idx, ord);
    if m.contains(x) {
        let k = choose|k: int| 0 <= k < m.len() && m[k] == x;
        assert(ord[k] < idx.len());
        assert(idx[ord[k] as int] == x);
    }
    if idx.contains(x) {
        let p = choose|p: int| 0 <= p < idx.len() && idx[p] == x;
        assert(occurs(ord, p));
        let k = choose|k: int| 0 <= k < ord.len() && #[trigger] ord[k] == p;
        assert(m[k] == x);
    }
}

/// The order in which hunks are named does not matter: two lists naming the
/// same hunks, no two of which start on the same line, sweep to the same
/// text (and one sweep is feasible exactly when the other is).
pub proof fn lemma_hunk_order_irrelevant(ls: Seq<Seq<u8>>, hs: Seq<Hunk>, idx1: Seq<usize>, ord1: Seq<usize>,
    idx2: Seq<usize>, ord2: Seq<usize>)
    requires
        is_sorted_order(hs, idx1, ord1),
        is_sorted_order(hs, idx2, ord2),
        starts_distinct(hs, idx1),
        starts_distinct(hs, idx2),
        forall|x: usize| idx1.contains(x) <==> idx2.contains(x),
    ensures
        sweep(ls, hs, idx1, ord1, 0) == sweep(ls, hs, idx2, ord2, 0),
        sweep_ok(ls, hs, idx1, ord1, 0) == sweep_ok(ls, hs, idx2, ord2, 0),
{
    let m1 = swept_hunks(idx1, ord1);
    let m2 = swept_hunks(idx2, ord2);
    assert forall|i: int, j: int| 0 <= i < j < m1.len() implies hs[m1[i] as int].old_start
        < hs[m1[j] as int].old_start by {
        lemma_swept_ascending(hs, idx1, ord1, i, j);
    }
    assert forall|i: int, j: int| 0 <= i < j < m2.len() implies hs[m2[i] as int].old_start
        < hs[m2[j] as int].old_start by {
        lemma_swept_ascending(hs, idx2, ord2, i, j);
    }
    assert forall|x: usize| m1.contains(x) <==> m2.contains(x) by {
        lemma_swept_members(hs, idx1, ord1, x);
        lemma_swept_members(hs, idx2, ord2, x);
    }
    lemma_rising_by_members(hs, m1, m2);
    lemma_sweep_by_hunks(ls, hs, idx1, ord1, idx2, ord2, 0);
}

/// Applying no hunk gives the content back unchanged.
pub proof fn lemma_no_hunks_keep_content(d: Seq<u8>, hs: Seq<Hunk>, idx: Seq<usize>, ord: Seq<usize>)
    requires
        idx.len() == 0,
        is_sorted_order(hs, idx, ord),
    ensures
        sweep(split_lines(d), hs, idx, ord, 0) == d,
{
    assert(split_lines(d).skip(0) =~= split_lines(d));
    lemma_split_lines_flatten(d);
}

/// The lines a sweep from line `pos` copies unchanged: those before each
/// hunk's splice point, and those after the last hunk.
pub open spec fn copied_lines(ls: Seq<Seq<u8>>, hs: Seq<Hunk>, idx: Seq<usize>, ord: Seq<usize>, pos: nat)
    -> Seq<Seq<u8>>
    decreases ord.len(),
{
    if ord.len() == 0 {
        ls.skip(pos as int)
    } else {
        let h = hunk_at(hs, idx, ord, 0);
        let ss = hunk_splice(h, ls.len());
        ls.subrange(pos as int, ss as int) + copied_lines(ls, hs, idx, ord.drop_first(), ss + h.old_lines as nat)
    }
}

/// The text of a sweep is the copied lines, in order, with each hunk's
/// replacement put in where that hunk was: removing the replacements would
/// leave exactly `copied_lines`.
pub open spec fn interleaved(ls: Seq<Seq<u8>>, hs: Seq<Hunk>, idx: Seq<usize>, ord: Seq<usize>, pos: nat) -> bool
    decreases ord.len(),
{
    if ord.len() == 0 {
        sweep(ls, hs, idx, ord, pos) == copied_lines(ls, hs, idx, ord, pos).flatten()
    } else {
        let h = hunk_at(hs, idx, ord, 0);
        let ss = hunk_splice(h, ls.len());
        &&& sweep(ls, hs, idx, ord, pos) == ls.subrange(pos as int, ss as int).flatten() + replacement(h.lines@)
            + sweep(ls, hs, idx, ord.drop_first(), ss + h.old_lines as nat)
        &&& interleaved(ls, hs, idx, ord.drop_first(), ss + h.old_lines as nat)
    }
}

/// Line `j` lies in the old range of one of the hunks of `ord`.
pub open spec fn covered(ls: Seq<Seq<u8>>, hs: Seq<Hunk>, idx: Seq<usize>, ord: Seq<usize>, j: int) -> bool {
    exists|k: int| 0 <= k < ord.len() && hunk_splice(#[trigger] hunk_at(hs, idx, ord, k), ls.len()) <= j
        < hunk_splice(hunk_at(hs, idx, ord, k), ls.len()) + hunk_at(hs, idx, ord, k).old_lines
}

/// The lines `a <= j < b` that no hunk of `ord` replaces, in order.
pub open spec fn untouched(ls: Seq<Seq<u8>>, hs: Seq<Hunk>, idx: Seq<usize>, ord: Seq<usize>, a: int, b: int)
    -> Seq<Seq<u8>>
    decreases b - a,
{
    if b <= a {
        Seq::empty()
    } else {
        let rest = untouched(ls, hs, idx, ord, a, b - 1);
        if covered(ls, hs, idx, ord, b - 1) { rest } else { rest.push(ls[b - 1]) }
    }
}

proof fn lemma_untouched_split(ls: Seq<Seq<u8>>, hs: Seq<Hunk>, idx: Seq<usize>, ord: Seq<usize>, a: int, m: int,
    b: int)
    requires
        a <= m <= b,
    ensures
        untouched(ls, hs, idx, ord, a, b) == untouched(ls, hs, idx, ord, a, m) + untouched(ls, hs, idx, ord, m, b),
    decreases b - m,
{
    if m < b {
        lemma_untouched_split(ls, hs, idx, ord, a, m, b - 1);
        assert(untouched(ls, hs, idx, ord, a, m) + untouched(ls, hs, idx, ord, m, b - 1).push(ls[b - 1])
            =~= (untouched(ls, hs, idx, ord, a, m) + untouched(ls, hs, idx, ord, m, b - 1)).push(ls[b - 1]));
    } else {
        assert(untouched(ls, hs, idx, ord, a, m) + untouched(ls, hs, idx, ord, m, b) =~= untouched(ls, hs, idx, ord, a, m));
    }
}

proof fn lemma_untouched_none_covered(ls: Seq<Seq<u8>>, hs: Seq<Hunk>, idx: Seq<usize>, ord: Seq<usize>, a: int,
    b: int)
    requires
        0 <= a <= b <= ls.len(),
        forall|j: int| a <= j < b ==> !covered(ls, hs, idx, ord, j),
    ensures
        untouched(ls, hs, idx, ord, a, b) == ls.subrange(a, b),
    decreases b - a,
{
    if a < b {
        lemma_untouched_none_covered(ls, hs, idx, ord, a, b - 1);
        assert(ls.subrange(a, b - 1).push(ls[b - 1]) =~= ls.subrange(a, b));
    } else {
        assert(ls.subrange(a, b) =~= Seq::<Seq<u8>>::empty());
    }
}

proof fn lemma_untouched_all_covered(ls: Seq<Seq<u8>>, hs: Seq<Hunk>, idx: Seq<usize>, ord: Seq<usize>, a: int,
    b: int)
    requires
        forall|j: int| a <= j < b ==> covered(ls, hs, idx, ord, j),
    ensures
        untouched(ls, hs, idx, ord, a, b) == Seq::<Seq<u8>>::empty(),
    decreases b - a,
{
    if a < b {
        lemma_untouched_all_covered(ls, hs, idx, ord, a, b - 1);
    }
}

proof fn lemma_untouched_same_cover(ls: Seq<Seq<u8>>, hs: Seq<Hunk>, idx: Seq<usize>, o1: Seq<usize>,
    o2: Seq<usize>, a: int, b: int)
    requires
        forall|j: int| a <= j < b ==> covered(ls, hs, idx, o1, j) == covered(ls, hs, idx, o2, j),
    ensures
        untouched(ls, hs, idx, o1, a, b) == untouched(ls, hs, idx, o2, a, b),
    decreases b - a,
{
    if a < b {
        lemma_untouched_same_cover(ls, hs, idx, o1, o2, a, b - 1);
    }
}

/// In a feasible sweep from `pos`, every hunk to come starts at or after
/// `pos`.
proof fn lemma_sweep_ok_starts(ls: Seq<Seq<u8>>, hs: Seq<Hunk>, idx: Seq<usize>, ord: Seq<usize>, pos: nat, k: int)
    requires
        sweep_ok(ls, hs, idx, ord, pos),
        0 <= k < ord.len(),
    ensures
        pos <= hunk_splice(hunk_at(hs, idx, ord, k), ls.len()),
    decreases ord.len(),
{
    if k > 0 {
        let h = hunk_at(hs, idx, ord, 0);
        lemma_sweep_ok_starts(ls, hs, idx, ord.drop_first(), hunk_splice(h, ls.len()) + h.old_lines as nat, k - 1);
        assert(hunk_at(hs, idx, ord.drop_first(), k - 1) == hunk_at(hs, idx, ord, k));
    }
}

/// What a feasible sweep from `pos` copies unchanged is exactly the lines
/// from `pos` on that none of its hunks replaces, in their order.
proof fn lemma_copied_are_untouched(ls: Seq<Seq<u8>>, hs: Seq<Hunk>, idx: Seq<usize>, ord: Seq<usize>, pos: nat)
    requires
        sweep_ok(ls, hs, idx, ord, pos),
    ensures
        copied_lines(ls, hs, idx, ord, pos) == untouched(ls, hs, idx, ord, pos as int, ls.len() as int),
        interleaved(ls, hs, idx, ord, pos),
    decreases ord.len(),
{
    lemma_sweep_ok_bound(ls, hs, idx, ord, pos);
    if ord.len() == 0 {
        assert forall|j: int| pos <= j < ls.len() implies !covered(ls, hs, idx, ord, j) by {}
        lemma_untouched_none_covered(ls, hs, idx, ord, pos as int, ls.len() as int);
        assert(ls.skip(pos as int) =~= ls.subrange(pos as int, ls.len() as int));
    } else {
        let h = hunk_at(hs, idx, ord, 0);
        let ss = hunk_splice(h, ls.len());
        let e = ss + h.old_lines as nat;
        let rest = ord.drop_first();
        lemma_copied_are_untouched(ls, hs, idx, rest, e);
        assert forall|k: int| 0 <= k < rest.len() implies #[trigger] hunk_at(hs, idx, rest, k) == hunk_at(hs, idx, ord, k + 1) by {}
        assert forall|j: int| pos <= j < ss implies !covered(ls, hs, idx, ord, j) by {
            if covered(ls, hs, idx, ord, j) {
                let k = choose|k: int| 0 <= k < ord.len() && hunk_splice(#[trigger] hunk_at(hs, idx, ord, k), ls.len())
                    <= j < hunk_splice(hunk_at(hs, idx, ord, k), ls.len()) + hunk_at(hs, idx, ord, k).old_lines;
                if k > 0 {
                    lemma_sweep_ok_starts(ls, hs, idx, rest, e, k - 1);
                }
            }
        }
        assert forall|j: int| ss <= j < e implies covered(ls, hs, idx, ord, j) by {
            assert(hunk_at(hs, idx, ord, 0) == h);
        }
        assert forall|j: int| e <= j < ls.len() implies covered(ls, hs, idx, ord, j) == covered(ls, hs, idx, rest, j) by {
            if covered(ls, hs, idx, ord, j) {
                let k = choose|k: int| 0 <= k < ord.len() && hunk_splice(#[trigger] hunk_at(hs, idx, ord, k), ls.len())
                    <= j < hunk_splice(hunk_at(hs, idx, ord, k), ls.len()) + hunk_at(hs, idx, ord, k).old_lines;
                if k > 0 {
                    assert(hunk_at(hs, idx, rest, k - 1) == hunk_at(hs, idx, ord, k));
                }
            }
            if covered(ls, hs, idx, rest, j) {
                let k = choose|k: int| 0 <= k < rest.len() && hunk_splice(#[trigger] hunk_at(hs, idx, rest, k), ls.len())
                    <= j < hunk_splice(hunk_at(hs, idx, rest, k), ls.len()) + hunk_at(hs, idx, rest, k).old_lines;
                assert(hunk_at(hs, idx, ord, k + 1) == hunk_at(hs, idx, rest, k));
            }
        }
        lemma_untouched_split(ls, hs, idx, ord, pos as int, ss as int, ls.len() as int);
        lemma_untouched_split(ls, hs, idx, ord, ss as int, e as int, ls.len() as int);
        lemma_untouched_none_covered(ls, hs, idx, ord, pos as int, ss as int);
        lemma_untouched_all_covered(ls, hs, idx, ord, ss as int, e as int);
        lemma_untouched_same_cover(ls, hs, idx, ord, rest, e as int, ls.len() as int);
        assert(untouched(ls, hs, idx, ord, pos as int, ls.len() as int) =~= ls.subrange(pos as int, ss as int)
            + untouched(ls, hs, idx, rest, e as int, ls.len() as int));
    }
}

/// Applying hunks leaves every other line in place: the lines no applied
/// hunk replaces come out unchanged and in their order, each hunk's new
/// text standing where its old lines were (`interleaved`).
pub proof fn lemma_untouched_lines_kept(content: Seq<u8>, hs: Seq<Hunk>, idx: Seq<usize>, ord: Seq<usize>)
    requires
        sweep_ok(split_lines(content), hs, idx, ord, 0),
    ensures
        copied_lines(split_lines(content), hs, idx, ord, 0)
            == untouched(split_lines(content), hs, idx, ord, 0, split_lines(content).len() as int),
        interleaved(split_lines(content), hs, idx, ord, 0),
{
    lemma_copied_are_untouched(split_lines(content), hs, idx, ord, 0);
}

/// Apply the hunks at `hunk_indices` to `content` in a single sweep, using
/// each hunk's original `old_start` position.  Hunks NOT listed in
/// `hunk_indices` are preserved unchanged.
///
/// `hunk_indices` need not be sorted on entry; the function sorts them by
/// `old_start` before processing.
pub fn apply_multiple_hunks_to_content(content: &[u8], hunks: &[Hunk], hunk_indices: &[usize]) -> (r: Result<Vec<u8>, PatchError>)
    requires
        indices_valid(hunks@, hunk_indices@) ==> forall|ord: Seq<usize>|
            is_sorted_order(hunks@, hunk_indices@, ord)
                ==> sweep_ok(split_lines(content@), hunks@, hunk_indices@, ord, 0),
    ensures
        match r {
            Ok(v) => indices_valid(hunks@, hunk_indices@) && exists|ord: Seq<usize>|
                is_sorted_order(hunks@, hunk_indices@, ord)
                    && v@ == sweep(split_lines(content@), hunks@, hunk_indices@, ord, 0),
            Err(PatchError::NoSuchHunk(i)) => exists|k: int|
                0 <= k < hunk_indices@.len() && hunk_indices@[k] == i && i >= hunks@.len()
                    && forall|j: int| 0 <= j < k ==> #[trigger] hunk_indices@[j] < hunks@.len(),
        },
{
    let m = hunk_indices.len();
    let mut k: usize = 0;
    while k < m
        invariant
            m == hunk_indices@.len(),
            k <= m,
            forall|j: int| 0 <= j < k ==> #[trigger] hunk_indices@[j] < hunks@.len(),
        decreases m - k,
    {
        if hunk_indices[k] >= hunks.len() {
            return Err(PatchError::NoSuchHunk(hunk_indices[k]));
        }
        k = k + 1;
    }
    let ord = sort_positions(hunks, hunk_indices);
    let lines = split_lines_keep_eol(content);
    let ghost ls = slice_views(lines@);
    let n = lines.len();
    let mut result: Vec<u8> = Vec::new();
    let mut src_pos: usize = 0;
    let mut step: usize = 0;
    assert(ord@.skip(0) =~= ord@);
    while step < m
        invariant
            m == hunk_indices@.len(),
            n == lines@.len(),
            ls == slice_views(lines@),
            ls == split_lines(content@),
            is_sorted_order(hunks@, hunk_indices@, ord@),
            indices_valid(hunks@, hunk_indices@),
            step <= m,
            sweep_ok(ls, hunks@, hunk_indices@, ord@.skip(step as int), src_pos as nat),
            result@ + sweep(ls, hunks@, hunk_indices@, ord@.skip(step as int), src_pos as nat)
                == sweep(ls, hunks@, hunk_indices@, ord@, 0),
        decreases m - step,
    {
        let ghost rest = ord@.skip(step as int);
        assert(rest[0] == ord@[step as int]);
        assert(ord@[step as int] < m);
        let h = &hunks[hunk_indices[ord[step]]];
        let old_start = h.old_start as usize;
        let old_count = h.old_lines as usize;
        let splice = if old_count == 0 {
            if old_start <= n { old_start } else { n }
        } else {
            let s = if old_start > 0 { old_start - 1 } else { 0 };
            if s <= n { s } else { n }
        };
        assert(rest.drop_first() =~= ord@.skip(step + 1));
        proof { lemma_sweep_ok_bound(ls, hunks@, hunk_indices@, rest, src_pos as nat); }
        let ghost before = result@;
        extend_with_lines(&mut result, &lines, src_pos, splice);
        extend_with_replacement(&mut result, &h.lines);
        assert(result@ + sweep(ls, hunks@, hunk_indices@, ord@.skip(step + 1), (splice + old_count) as nat)
            =~= before + sweep(ls, hunks@, hunk_indices@, rest, src_pos as nat));
        src_pos = splice + old_count;
        step = step + 1;
    }
    proof {
        assert(ord@.skip(m as int) =~= Seq::<usize>::empty());
    }
    extend_with_lines(&mut result, &lines, src_pos, n);
    assert(ls.subrange(src_pos as int, n as int) =~= ls.skip(src_pos as int));
    Ok(result)
}

/// What applying a file's selected hunks does to it in the new tree.
#[derive(Debug)]
pub enum FileUpdate {
    /// No hunk of the file was selected: it keeps the parent's content.
    Keep,
    /// A deleted file whose every line went: it leaves the tree.
    Remove,
    /// The file is written with this content and mode.
    Write { content: Vec<u8>, mode: u32 },
}

/// Why a file's selected hunks could not be applied.
#[derive(Debug, PartialEq, Eq)]
pub enum FileUpdateError {
    /// The file is not new, yet the parent's tree has no entry for it.
    NotInParent,
    /// A selected hunk does not exist.
    Hunk(PatchError),
}

/// The content the hunks apply to: nothing for a new file, else the
/// parent's (absent when the parent has no entry).
pub open spec fn base_content(status: DeltaStatus, parent: Option<(Vec<u8>, u32)>) -> Option<Seq<u8>> {
    if status == DeltaStatus::Added {
        Some(Seq::empty())
    } else {
        match parent {
            Some((c, _)) => Some(c@),
            None => None,
        }
    }
}

/// The file's content after the selected hunks, in some start order.
pub open spec fn applied_to(old: Seq<u8>, hs: Seq<Hunk>, idx: Seq<usize>, v: Seq<u8>) -> bool {
    exists|ord: Seq<usize>| is_sorted_order(hs, idx, ord) && v == sweep(split_lines(old), hs, idx, ord, 0)
}

/// Apply a file's selected hunks (`indices` into its `hunks`) for a split:
/// a file with none selected is kept; a new file starts empty with its own
/// `new_mode`, any other from the parent's `(content, mode)`; a deleted file
/// left empty is removed, anything else written.
pub fn file_after_hunks(status: DeltaStatus, new_mode: u32, parent: Option<(Vec<u8>, u32)>, hunks: &[Hunk],
    indices: &[usize]) -> (r: Result<FileUpdate, FileUpdateError>)
    requires
        indices@.len() > 0 && base_content(status, parent) is Some && indices_valid(hunks@, indices@) ==>
            forall|ord: Seq<usize>| is_sorted_order(hunks@, indices@, ord)
                ==> sweep_ok(split_lines(base_content(status, parent)->Some_0), hunks@, indices@, ord, 0),
    ensures
        indices@.len() == 0 ==> r matches Ok(FileUpdate::Keep),
        indices@.len() > 0 && base_content(status, parent) is None ==> r == Err::<FileUpdate, FileUpdateError>(
            FileUpdateError::NotInParent),
        indices@.len() > 0 && base_content(status, parent) is Some ==> {
            let old = base_content(status, parent)->Some_0;
            let mode = if status == DeltaStatus::Added { new_mode } else { parent->Some_0.1 };
            &&& r is Ok <==> indices_valid(hunks@, indices@)
            &&& r matches Ok(FileUpdate::Remove) ==> status == DeltaStatus::Deleted
                && applied_to(old, hunks@, indices@, Seq::empty())
            &&& r matches Ok(FileUpdate::Write { content, mode: m }) ==> m == mode
                && applied_to(old, hunks@, indices@, content@)
                && !(status == DeltaStatus::Deleted && content@.len() == 0)
            &&& !(r matches Ok(FileUpdate::Keep))
            &&& r matches Err(e) ==> e matches FileUpdateError::Hunk(PatchError::NoSuchHunk(_))
        },
{
    if indices.len() == 0 {
        return Ok(FileUpdate::Keep);
    }
    let (old, mode): (Vec<u8>, u32) = if status == DeltaStatus::Added {
        (Vec::new(), new_mode)
    } else {
        match parent {
            Some((c, m)) => (c, m),
            None => return Err(FileUpdateError::NotInParent),
        }
    };
    assert(old@ == base_content(status, parent)->Some_0);
    let new_content = match apply_multiple_hunks_to_content(old.as_slice(), hunks, indices) {
        Ok(v) => v,
        Err(e) => {
            proof {
                if indices_valid(hunks@, indices@) {
                    let PatchError::NoSuchHunk(i) = e;
                    let k = choose|k: int| 0 <= k < indices@.len() && indices@[k] == i && i >= hunks@.len()
                        && forall|j: int| 0 <= j < k ==> #[trigger] indices@[j] < hunks@.len();
                    assert(indices@[k] < hunks@.len());
                }
            }
            return Err(FileUpdateError::Hunk(e));
        },
    };
    if status == DeltaStatus::Deleted && new_content.len() == 0 {
        assert(new_content@ =~= Seq::<u8>::empty());
        Ok(FileUpdate::Remove)
    } else {
        Ok(FileUpdate::Write { content: new_content, mode })
    }
}

} // verus!
