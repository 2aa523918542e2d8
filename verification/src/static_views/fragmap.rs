//! Static (non-TUI) fragmap renderer: the hunk-group matrix as plain text,
//! one line per commit: short SHA, title, then one cell per cluster column.
//!
//! With `colors` the output uses ANSI escape codes (cyan SHA, grey title for
//! fully-squashable commits, white/yellow/red background cells); without,
//! plain characters, which suit snapshot tests and piping.

use vstd::prelude::*;
use vstd::seq_lib::lemma_flatten_concat;
use crate::text::push_char;

verus! {

/// One commit of the matrix, in display order (regular commits, then any
/// staged/unstaged rows), as the fragmap computed it.
pub struct FragmapRow {
    /// The commit's hex id.
    pub oid: String,
    /// The commit's title.
    pub summary: String,
    /// Every cluster this commit touches can be squashed into an earlier
    /// commit.
    pub fully_squashable: bool,
    /// Per cluster column: whether this commit touches the cluster.
    pub touches: Vec<bool>,
    /// Per cluster column: whether this commit is squashable with the first
    /// commit that touches the column (their relation in the fragmap).
    pub squashable_from_first: Vec<bool>,
}

/// What a cell of the matrix shows.
#[derive(Clone, Copy, Debug, PartialEq, Eq, Structural)]
pub enum CellKind {
    /// The commit touches the cluster.
    Touch,
    /// Between two touching commits that can be squashed together.
    Squashable,
    /// Between two touching commits that conflict.
    Conflicting,
    /// Nothing above, or nothing below, in this column.
    Empty,
}

/// Every row has one entry per column, `n` columns.
pub open spec fn well_formed(rows: Seq<FragmapRow>, n: nat) -> bool {
    forall|i: int| 0 <= i < rows.len() ==> #[trigger] rows[i].touches@.len() == n
        && rows[i].squashable_from_first@.len() == n
}

/// Some row in `lo..hi` touches column `c`.
pub open spec fn touched_in(rows: Seq<FragmapRow>, c: int, lo: int, hi: int) -> bool {
    exists|j: int| lo <= j < hi && #[trigger] rows[j].touches@[c]
}

/// The first row at or after `from` that touches column `c`.
pub open spec fn next_touch(rows: Seq<FragmapRow>, c: int, from: int) -> int
    decreases rows.len() - from,
{
    if from < 0 || from >= rows.len() {
        rows.len() as int
    } else if rows[from].touches@[c] {
        from
    } else {
        next_touch(rows, c, from + 1)
    }
}

/// What the cell of row `i`, column `c` shows: the touch itself; or, between
/// a touch above and one below, whether the nearest touch below is
/// squashable with the column's first; else nothing.
pub open spec fn cell_kind(rows: Seq<FragmapRow>, i: int, c: int) -> CellKind {
    if rows[i].touches@[c] {
        CellKind::Touch
    } else if touched_in(rows, c, 0, i) && touched_in(rows, c, i + 1, rows.len() as int) {
        if rows[next_touch(rows, c, i + 1)].squashable_from_first@[c] {
            CellKind::Squashable
        } else {
            CellKind::Conflicting
        }
    } else {
        CellKind::Empty
    }
}

/// The text of a cell.
pub open spec fn cell_text(colors: bool, k: CellKind) -> Seq<char> {
    match k {
        CellKind::Touch => if colors { "\x1b[47m \x1b[0m"@ } else { "#"@ },
        CellKind::Squashable => if colors { "\x1b[43m \x1b[0m"@ } else { "^"@ },
        CellKind::Conflicting => if colors { "\x1b[41m \x1b[0m"@ } else { "|"@ },
        CellKind::Empty => "."@,
    }
}

/// The cells of row `i` for the first `n` columns.
pub open spec fn cells_text(rows: Seq<FragmapRow>, i: int, colors: bool, n: nat) -> Seq<char>
    decreases n,
{
    if n == 0 {
        Seq::empty()
    } else {
        cells_text(rows, i, colors, (n - 1) as nat) + cell_text(colors, cell_kind(rows, i, n - 1))
    }
}

/// The first `n` characters of `s` (all of it when shorter).
pub open spec fn prefix_of(s: Seq<char>, n: nat) -> Seq<char> {
    if s.len() <= n { s } else { s.take(n as int) }
}

/// The title column: the first 26 characters, padded with spaces to 26.
pub open spec fn title_cell(s: Seq<char>) -> Seq<char> {
    let t = prefix_of(s, 26);
    t + Seq::new((26 - t.len()) as nat, |_k: int| ' ')
}

/// One line of the output: SHA (first 8 characters), a space, the title
/// (grey when the commit is fully squashable), the `n` cells, a newline.
pub open spec fn row_text(rows: Seq<FragmapRow>, i: int, colors: bool, n: nat) -> Seq<char> {
    let r = rows[i];
    let sha = if colors { "\x1b[36m"@ + prefix_of(r.oid@, 8) + "\x1b[0m"@ } else { prefix_of(r.oid@, 8) };
    let title = if colors && r.fully_squashable {
        "\x1b[90m"@ + title_cell(r.summary@) + "\x1b[0m"@
    } else {
        title_cell(r.summary@)
    };
    sha + seq![' '] + title + cells_text(rows, i, colors, n) + seq!['\n']
}

/// The row shown `k`-th: oldest first (the highest index) when `reverse`.
pub open spec fn shown_row(len: nat, reverse: bool, k: int) -> int {
    if reverse { len - 1 - k } else { k }
}

/// The first `k` lines of the output.
pub open spec fn rendered(rows: Seq<FragmapRow>, colors: bool, reverse: bool, n: nat, k: nat) -> Seq<char>
    decreases k,
{
    if k == 0 {
        Seq::empty()
    } else {
        rendered(rows, colors, reverse, n, (k - 1) as nat)
            + row_text(rows, shown_row(rows.len(), reverse, k - 1), colors, n)
    }
}

fn cell_str(colors: bool, k: CellKind) -> (s: &'static str)
    ensures
        s@ == cell_text(colors, k),
{
    match k {
        CellKind::Touch => if colors { "\x1b[47m \x1b[0m" } else { "#" },
        CellKind::Squashable => if colors { "\x1b[43m \x1b[0m" } else { "^" },
        CellKind::Conflicting => if colors { "\x1b[41m \x1b[0m" } else { "|" },
        CellKind::Empty => ".",
    }
}

/// The cell of row `i`, column `c`.
pub fn cell_of(rows: &Vec<FragmapRow>, i: usize, c: usize, n: Ghost<nat>) -> (k: CellKind)
    requires
        well_formed(rows@, n@),
        i < rows@.len(),
        c < n@,
    ensures
        k == cell_kind(rows@, i as int, c as int),
{
    if rows[i].touches[c] {
        return CellKind::Touch;
    }
    let mut above = false;
    let mut j: usize = 0;
    while j < i
        invariant
            well_formed(rows@, n@),
            i < rows@.len(),
            c < n@,
            j <= i,
            above == touched_in(rows@, c as int, 0, j as int),
        decreases i - j,
    {
        if rows[j].touches[c] {
            above = true;
        }
        assert(touched_in(rows@, c as int, 0, j + 1) == (touched_in(rows@, c as int, 0, j as int)
            || rows@[j as int].touches@[c as int]));
        j = j + 1;
    }
    if !above {
        return CellKind::Empty;
    }
    let n_rows = rows.len();
    let mut b: usize = i + 1;
    while b < n_rows && !rows[b].touches[c]
        invariant
            well_formed(rows@, n@),
            i < rows@.len(),
            c < n@,
            n_rows == rows@.len(),
            i + 1 <= b <= n_rows,
            !touched_in(rows@, c as int, i + 1, b as int),
            next_touch(rows@, c as int, i + 1) == next_touch(rows@, c as int, b as int),
        decreases n_rows - b,
    {
        assert(!touched_in(rows@, c as int, i + 1, b + 1)) by {
            if touched_in(rows@, c as int, i + 1, b + 1) {
                let w = choose|w: int| i + 1 <= w < b + 1 && #[trigger] rows@[w].touches@[c as int];
                if w < b {
                    assert(touched_in(rows@, c as int, i + 1, b as int));
                }
            }
        }
        b = b + 1;
    }
    if b == n_rows {
        assert(!touched_in(rows@, c as int, i + 1, rows@.len() as int));
        return CellKind::Empty;
    }
    assert(touched_in(rows@, c as int, i + 1, rows@.len() as int)) by {
        assert(rows@[b as int].touches@[c as int]);
    }
    if rows[b].squashable_from_first[c] { CellKind::Squashable } else { CellKind::Conflicting }
}

/// Append the first `n` characters of `s` (all of it when shorter).
fn push_prefix(out: &mut String, s: &String, n: usize)
    ensures
        final(out)@ == old(out)@ + prefix_of(s@, n as nat),
{
    let len = s.as_str().unicode_len();
    if len <= n {
        out.append(s.as_str());
    } else {
        let t = s.as_str().substring_char(0, n);
        out.append(t);
        assert(t@ =~= s@.take(n as int));
    }
}

/// Append the title column for `s`.
fn push_title(out: &mut String, s: &String)
    ensures
        final(out)@ == old(out)@ + title_cell(s@),
{
    let ghost start = out@;
    push_prefix(out, s, 26);
    let len = s.as_str().unicode_len();
    let shown: usize = if len <= 26 { len } else { 26 };
    let mut k: usize = shown;
    while k < 26
        invariant
            shown <= k <= 26,
            shown == prefix_of(s@, 26).len(),
            out@ == start + prefix_of(s@, 26) + Seq::new((k - shown) as nat, |_k: int| ' '),
        decreases 26 - k,
    {
        push_char(out, ' ');
        assert(Seq::new((k - shown) as nat, |_k: int| ' ').push(' ')
            =~= Seq::new((k + 1 - shown) as nat, |_k: int| ' '));
        k = k + 1;
    }
    assert(out@ =~= start + title_cell(s@));
}

/// Append the line of row `i`.
fn push_row(out: &mut String, rows: &Vec<FragmapRow>, i: usize, colors: bool, n: usize)
    requires
        well_formed(rows@, n as nat),
        i < rows@.len(),
    ensures
        final(out)@ == old(out)@ + row_text(rows@, i as int, colors, n as nat),
{
    let ghost start = out@;
    let r = &rows[i];
    if colors {
        out.append("\x1b[36m");
    }
    push_prefix(out, &r.oid, 8);
    if colors {
        out.append("\x1b[0m");
    }
    push_char(out, ' ');
    let ghost after_sha = out@;
    let grey = colors && r.fully_squashable;
    if grey {
        out.append("\x1b[90m");
    }
    push_title(out, &r.summary);
    if grey {
        out.append("\x1b[0m");
    }
    let ghost after_title = out@;
    let mut c: usize = 0;
    while c < n
        invariant
            well_formed(rows@, n as nat),
            i < rows@.len(),
            c <= n,
            out@ == after_title + cells_text(rows@, i as int, colors, c as nat),
        decreases n - c,
    {
        let k = cell_of(rows, i, c, Ghost(n as nat));
        out.append(cell_str(colors, k));
        c = c + 1;
    }
    push_char(out, '\n');
    proof {
        let sha = if colors { "\x1b[36m"@ + prefix_of(r.oid@, 8) + "\x1b[0m"@ } else { prefix_of(r.oid@, 8) };
        let title = if colors && r.fully_squashable {
            "\x1b[90m"@ + title_cell(r.summary@) + "\x1b[0m"@
        } else {
            title_cell(r.summary@)
        };
        assert(after_sha =~= start + sha + seq![' ']);
        assert(after_title =~= start + sha + seq![' '] + title);
        assert(out@ =~= start + (sha + seq![' '] + title + cells_text(rows@, i as int, colors, n as nat) + seq!['\n']));
    }
}

/// Render the fragmap matrix of `rows` (in display order) to text, one line
/// per row, newest first unless `reverse`; `n` is the number of cluster
/// columns. `colors` selects ANSI color output (as the fragmap
/// tool prints it) over plain characters.
pub fn render(rows: &Vec<FragmapRow>, n: usize, colors: bool, reverse: bool) -> (out: String)
    requires
        well_formed(rows@, n as nat),
    ensures
        out@ == rendered(rows@, colors, reverse, n as nat, rows@.len()),
        out@ == output_lines(rows@, colors, reverse, n as nat).flatten(),
{
    proof { lemma_output_is_its_lines(rows@, colors, reverse, n as nat); }
    let mut out = String::new();
    let len = rows.len();
    let mut k: usize = 0;
    while k < len
        invariant
            well_formed(rows@, n as nat),
            len == rows@.len(),
            k <= len,
            out@ == rendered(rows@, colors, reverse, n as nat, k as nat),
        decreases len - k,
    {
        let i = if reverse { len - 1 - k } else { k };
        push_row(&mut out, rows, i, colors, n);
        k = k + 1;
    }
    out
}

/// The lines of the output, in the order they are printed.
pub open spec fn output_lines(rows: Seq<FragmapRow>, colors: bool, reverse: bool, n: nat) -> Seq<Seq<char>> {
    Seq::new(rows.len(), |k: int| row_text(rows, shown_row(rows.len(), reverse, k), colors, n))
}

proof fn lemma_rendered_is_lines(rows: Seq<FragmapRow>, colors: bool, reverse: bool, n: nat, k: nat)
    requires
        k <= rows.len(),
    ensures
        rendered(rows, colors, reverse, n, k) == output_lines(rows, colors, reverse, n).take(k as int).flatten(),
    decreases k,
{
    let ls = output_lines(rows, colors, reverse, n);
    if k == 0 {
        assert(ls.take(0) =~= Seq::<Seq<char>>::empty());
    } else {
        lemma_rendered_is_lines(rows, colors, reverse, n, (k - 1) as nat);
        assert(ls.take(k as int) =~= ls.take(k - 1) + seq![ls[k - 1]]);
        lemma_flatten_concat(ls.take(k - 1), seq![ls[k - 1]]);
        seq![ls[k - 1]].lemma_flatten_one_element();
    }
}

/// The printed text is the lines one after the other.
pub proof fn lemma_output_is_its_lines(rows: Seq<FragmapRow>, colors: bool, reverse: bool, n: nat)
    ensures
        rendered(rows, colors, reverse, n, rows.len()) == output_lines(rows, colors, reverse, n).flatten(),
{
    lemma_rendered_is_lines(rows, colors, reverse, n, rows.len());
    assert(output_lines(rows, colors, reverse, n).take(rows.len() as int) =~= output_lines(rows, colors, reverse, n));
}

/// There is one line per commit, each ending in a newline, and printing
/// oldest first gives the same lines in the opposite order.
pub proof fn lemma_reverse_output(rows: Seq<FragmapRow>, colors: bool, n: nat)
    ensures
        output_lines(rows, colors, false, n).len() == rows.len(),
        output_lines(rows, colors, true, n) == output_lines(rows, colors, false, n).reverse(),
        forall|reverse: bool, k: int| 0 <= k < rows.len() ==> #[trigger] output_lines(rows, colors, reverse, n)[k].last()
            == '\n',
{
    assert(output_lines(rows, colors, true, n) =~= output_lines(rows, colors, false, n).reverse());
}

/// Without colors every cell is one character, `#` exactly where the commit
/// touches the cluster, else `^`, `|` or `.`.
pub proof fn lemma_plain_cell(rows: Seq<FragmapRow>, i: int, c: int)
    ensures
        ({
            let t = cell_text(false, cell_kind(rows, i, c));
            &&& t.len() == 1
            &&& (t[0] == '#') == rows[i].touches@[c]
            &&& t[0] == '#' || t[0] == '^' || t[0] == '|' || t[0] == '.'
        }),
{
    reveal_strlit("#");
    reveal_strlit("^");
    reveal_strlit("|");
    reveal_strlit(".");
}

/// Without colors a line has one character per cluster column.
pub proof fn lemma_plain_cells_len(rows: Seq<FragmapRow>, i: int, n: nat)
    ensures
        cells_text(rows, i, false, n).len() == n,
    decreases n,
{
    if n > 0 {
        lemma_plain_cells_len(rows, i, (n - 1) as nat);
        lemma_plain_cell(rows, i, n - 1);
    }
}

proof fn lemma_next_touch(rows: Seq<FragmapRow>, c: int, from: int)
    requires
        0 <= from,
    ensures
        from <= next_touch(rows, c, from) <= rows.len() || (from > rows.len() && next_touch(rows, c, from) == rows.len()),
        forall|k: int| from <= k < next_touch(rows, c, from) ==> !(#[trigger] rows[k]).touches@[c],
        next_touch(rows, c, from) < rows.len() ==> rows[next_touch(rows, c, from)].touches@[c],
    decreases rows.len() - from,
{
    if from < rows.len() && !rows[from].touches@[c] {
        lemma_next_touch(rows, c, from + 1);
    }
}

/// What a cell shows, in terms of the column alone: `#` exactly where the
/// commit touches the cluster; elsewhere a connector exactly when some
/// commit anywhere above and some commit anywhere below touch it; and then
/// squashable exactly when the nearest touching commit below is squashable
/// with the column's first.
pub proof fn lemma_cell_meaning(rows: Seq<FragmapRow>, i: int, c: int)
    requires
        0 <= i < rows.len(),
    ensures
        (cell_kind(rows, i, c) == CellKind::Touch) <==> rows[i].touches@[c],
        !rows[i].touches@[c] ==> ((cell_kind(rows, i, c) == CellKind::Squashable
            || cell_kind(rows, i, c) == CellKind::Conflicting)
            <==> ((exists|a: int| 0 <= a < i && (#[trigger] rows[a]).touches@[c])
                && (exists|b: int| i < b < rows.len() && (#[trigger] rows[b]).touches@[c]))),
        forall|b: int| i < b < rows.len() && (#[trigger] rows[b]).touches@[c] && !rows[i].touches@[c]
            && (forall|k: int| i < k < b ==> !(#[trigger] rows[k]).touches@[c])
            && (exists|a: int| 0 <= a < i && (#[trigger] rows[a]).touches@[c])
            ==> ((cell_kind(rows, i, c) == CellKind::Squashable) == rows[b].squashable_from_first@[c]
                && (cell_kind(rows, i, c) == CellKind::Conflicting) == !rows[b].squashable_from_first@[c]),
{
    lemma_next_touch(rows, c, i + 1);
    let nb = next_touch(rows, c, i + 1);
    assert(touched_in(rows, c, 0, i) == (exists|a: int| 0 <= a < i && (#[trigger] rows[a]).touches@[c]));
    assert(touched_in(rows, c, i + 1, rows.len() as int)
        == (exists|b: int| i < b < rows.len() && (#[trigger] rows[b]).touches@[c]));
    if touched_in(rows, c, i + 1, rows.len() as int) {
        let w = choose|w: int| i + 1 <= w < rows.len() && #[trigger] rows[w].touches@[c];
        assert(nb <= w);
    }
    assert forall|b: int| i < b < rows.len() && (#[trigger] rows[b]).touches@[c] && !rows[i].touches@[c]
        && (forall|k: int| i < k < b ==> !(#[trigger] rows[k]).touches@[c])
        && (exists|a: int| 0 <= a < i && (#[trigger] rows[a]).touches@[c])
        implies ((cell_kind(rows, i, c) == CellKind::Squashable) == rows[b].squashable_from_first@[c]
            && (cell_kind(rows, i, c) == CellKind::Conflicting) == !rows[b].squashable_from_first@[c]) by {
        assert(nb <= b);
        if nb < b {
            assert(!rows[nb].touches@[c]);
        }
        assert(nb == b);
    }
}

} // verus!
