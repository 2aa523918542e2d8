//! The text lines of the commit detail view's file list and diff — what
//! the view draws, and what its search runs over.

use vstd::prelude::*;
use crate::diff::{DiffHunk, DiffLine, DiffLineKind, FileDiff};
use crate::text::{decimal, find_char, lemma_find_char, push_char, push_decimal};
use crate::views::commit_detail::{display_path, file_status_of, get_file_status_and_path, format_file_status, status_indicator};
use crate::views::two_pane_picker::string_views;

verus! {

/// `s` without its trailing line terminators (`\n` and `\r`).
pub open spec fn trim_eol(s: Seq<char>) -> Seq<char>
    decreases s.len(),
{
    if s.len() > 0 && (s.last() == '\n' || s.last() == '\r') {
        trim_eol(s.drop_last())
    } else {
        s
    }
}

/// The marker a diff line is drawn with.
pub open spec fn line_marker(k: DiffLineKind) -> char {
    match k {
        DiffLineKind::Addition => '+',
        DiffLineKind::Deletion => '-',
        DiffLineKind::Context => ' ',
    }
}

/// A diff line as drawn: its marker, then its text without terminators.
pub open spec fn diff_line_text(l: DiffLine) -> Seq<char> {
    seq![line_marker(l.kind)] + trim_eol(l.content@)
}

/// A hunk's header: `@@ -old_start,old_lines +new_start,new_lines @@`.
pub open spec fn hunk_header_text(h: DiffHunk) -> Seq<char> {
    "@@ -"@ + decimal(h.old_start as nat) + ","@ + decimal(h.old_lines as nat) + " +"@
        + decimal(h.new_start as nat) + ","@ + decimal(h.new_lines as nat) + " @@"@
}

/// The lines of the first `n` lines of a hunk.
pub open spec fn hunk_body(lines: Seq<DiffLine>, n: int) -> Seq<Seq<char>>
    decreases n,
{
    if n <= 0 { Seq::empty() } else { hunk_body(lines, n - 1).push(diff_line_text(lines[n - 1])) }
}

/// The lines of the first `n` hunks: each header, then its lines.
pub open spec fn hunks_text(hunks: Seq<DiffHunk>, n: int) -> Seq<Seq<char>>
    decreases n,
{
    if n <= 0 {
        Seq::empty()
    } else {
        let h = hunks[n - 1];
        hunks_text(hunks, n - 1).push(hunk_header_text(h)) + hunk_body(h.lines@, h.lines@.len() as int)
    }
}

/// A path for a diff header: `prefix/path`, or `/dev/null` when absent.
pub open spec fn diff_side(p: Option<String>, prefix: Seq<char>) -> Seq<char> {
    match p {
        Some(s) => prefix + "/"@ + s@,
        None => "/dev/null"@,
    }
}

/// The block of one file: its `---` and `+++` headers, its hunks, then a
/// blank line.
pub open spec fn file_block(f: FileDiff) -> Seq<Seq<char>> {
    seq!["--- "@ + diff_side(f.old_path, "a"@), "+++ "@ + diff_side(f.new_path, "b"@)]
        + hunks_text(f.hunks@, f.hunks@.len() as int) + seq![Seq::<char>::empty()]
}

/// The "Diff:" section for the first `n` files.
pub open spec fn diff_text(files: Seq<FileDiff>, n: int) -> Seq<Seq<char>>
    decreases n,
{
    if n <= 0 {
        seq![Seq::<char>::empty(), "Diff:"@, Seq::<char>::empty()]
    } else {
        diff_text(files, n - 1) + file_block(files[n - 1])
    }
}

/// Where each of the first `n` files' `---` header sits in the section.
pub open spec fn file_header_lines(files: Seq<FileDiff>, n: int) -> Seq<usize>
    decreases n,
{
    if n <= 0 { Seq::empty() } else { file_header_lines(files, n - 1).push(diff_text(files, n - 1).len() as usize) }
}

proof fn lemma_string_views_push(v: Seq<String>, s: String)
    ensures
        string_views(v.push(s)) == string_views(v).push(s@),
{
    assert(string_views(v.push(s)) =~= string_views(v).push(s@));
}

fn trimmed_eol_len(s: &str) -> (n: usize)
    ensures
        n <= s@.len(),
        s@.take(n as int) == trim_eol(s@),
{
    let mut n = s.unicode_len();
    assert(s@.take(n as int) =~= s@);
    while n > 0
        invariant
            n <= s@.len(),
            trim_eol(s@.take(n as int)) == trim_eol(s@),
        decreases n,
    {
        let c = s.get_char(n - 1);
        if c != '\n' && c != '\r' {
            return n;
        }
        assert(s@.take(n as int).drop_last() =~= s@.take(n - 1));
        n = n - 1;
    }
    assert(s@.take(0) =~= Seq::<char>::empty());
    n
}

/// A diff line as drawn.
pub fn diff_line(line: &DiffLine) -> (s: String)
    ensures
        s@ == diff_line_text(*line),
{
    let mut s = String::new();
    let marker = match line.kind {
        DiffLineKind::Addition => '+',
        DiffLineKind::Deletion => '-',
        DiffLineKind::Context => ' ',
    };
    push_char(&mut s, marker);
    let text = line.content.as_str();
    let n = trimmed_eol_len(text);
    s.append(text.substring_char(0, n));
    assert(s@ =~= diff_line_text(*line));
    s
}

/// A hunk's header line.
pub fn hunk_header(h: &DiffHunk) -> (s: String)
    ensures
        s@ == hunk_header_text(*h),
{
    let mut s = String::from_str("@@ -");
    push_decimal(&mut s, h.old_start as usize);
    push_char(&mut s, ',');
    push_decimal(&mut s, h.old_lines as usize);
    push_char(&mut s, ' ');
    push_char(&mut s, '+');
    push_decimal(&mut s, h.new_start as usize);
    push_char(&mut s, ',');
    push_decimal(&mut s, h.new_lines as usize);
    s.append(" @@");
    proof {
        reveal_strlit("@@ -");
        reveal_strlit(",");
        reveal_strlit(" +");
        reveal_strlit(" @@");
    }
    assert(s@ =~= hunk_header_text(*h));
    s
}

fn side_path(p: &Option<String>, prefix: &str) -> (s: String)
    ensures
        s@ == diff_side(*p, prefix@),
{
    match p {
        Some(path) => crate::views::commit_detail::diff_path_with_prefix(Some(path.as_str()), prefix),
        None => crate::views::commit_detail::diff_path_with_prefix(None, prefix),
    }
}

fn push_file_block(lines: &mut Vec<String>, f: &FileDiff)
    ensures
        string_views(final(lines)@) == string_views(old(lines)@) + file_block(*f),
{
    let ghost start = string_views(lines@);
    let mut old_header = String::from_str("--- ");
    old_header.append(side_path(&f.old_path, "a").as_str());
    let mut new_header = String::from_str("+++ ");
    new_header.append(side_path(&f.new_path, "b").as_str());
    proof {
        reveal_strlit("--- ");
        reveal_strlit("+++ ");
    }
    lines.push(old_header);
    lines.push(new_header);
    assert(string_views(lines@) =~= start + seq!["--- "@ + diff_side(f.old_path, "a"@), "+++ "@ + diff_side(f.new_path, "b"@)]);
    let ghost with_headers = string_views(lines@);
    let mut k: usize = 0;
    assert(hunks_text(f.hunks@, 0) =~= Seq::<Seq<char>>::empty());
    assert(with_headers + hunks_text(f.hunks@, 0) =~= with_headers);
    while k < f.hunks.len()
        invariant
            k <= f.hunks@.len(),
            string_views(lines@) == with_headers + hunks_text(f.hunks@, k as int),
        decreases f.hunks@.len() - k,
    {
        let h = &f.hunks[k];
        let ghost before_header = lines@;
        let header = hunk_header(h);
        lines.push(header);
        proof { lemma_string_views_push(before_header, header); }
        let ghost after_header = string_views(lines@);
        assert(after_header =~= with_headers + hunks_text(f.hunks@, k as int).push(hunk_header_text(*h)));
        let mut j: usize = 0;
        assert(after_header + hunk_body(h.lines@, 0) =~= after_header);
        while j < h.lines.len()
            invariant
                j <= h.lines@.len(),
                string_views(lines@) == after_header + hunk_body(h.lines@, j as int),
            decreases h.lines@.len() - j,
        {
            let ghost before_line = lines@;
            let text = diff_line(&h.lines[j]);
            lines.push(text);
            proof { lemma_string_views_push(before_line, text); }
            assert(string_views(lines@) =~= after_header + hunk_body(h.lines@, j + 1));
            j = j + 1;
        }
        assert(string_views(lines@) =~= with_headers + hunks_text(f.hunks@, k + 1));
        k = k + 1;
    }
    let ghost before_blank = lines@;
    let blank = String::new();
    lines.push(blank);
    proof { lemma_string_views_push(before_blank, blank); }
    assert(string_views(lines@) =~= start + file_block(*f));
}

/// Build the "Diff:" section with file headers, hunk headers, and +/-
/// lines. Returns the lines and the index (within the returned lines) where
/// each file's `---` header starts.
pub fn build_diff_lines(files: &Vec<FileDiff>) -> (r: (Vec<String>, Vec<usize>))
    ensures
        string_views(r.0@) == diff_text(files@, files@.len() as int),
        r.1@ == file_header_lines(files@, files@.len() as int),
{
    let mut lines: Vec<String> = Vec::new();
    lines.push(String::new());
    lines.push(String::from_str("Diff:"));
    lines.push(String::new());
    proof { reveal_strlit("Diff:"); }
    assert(string_views(lines@) =~= diff_text(files@, 0));
    let mut headers: Vec<usize> = Vec::new();
    let mut i: usize = 0;
    while i < files.len()
        invariant
            i <= files@.len(),
            string_views(lines@) == diff_text(files@, i as int),
            headers@ == file_header_lines(files@, i as int),
        decreases files@.len() - i,
    {
        headers.push(lines.len());
        push_file_block(&mut lines, &files[i]);
        i = i + 1;
    }
    (lines, headers)
}

/// The preview of one hunk in the hunk picker: the file's path and a
/// colon, a blank line, the hunk's header, then its lines.
pub open spec fn hunk_preview_text(file_path: Seq<char>, h: DiffHunk) -> Seq<Seq<char>> {
    seq![file_path + ":"@, Seq::<char>::empty(), hunk_header_text(h)] + hunk_body(h.lines@, h.lines@.len() as int)
}

/// Build the preview lines of a hunk offered by the hunk picker.
pub fn build_hunk_preview(file_path: &str, hunk: &DiffHunk) -> (lines: Vec<String>)
    ensures
        string_views(lines@) == hunk_preview_text(file_path@, *hunk),
{
    let mut lines: Vec<String> = Vec::new();
    let mut title = file_path.to_owned();
    push_char(&mut title, ':');
    proof { reveal_strlit(":"); }
    assert(title@ =~= file_path@ + ":"@);
    lines.push(title);
    lines.push(String::new());
    lines.push(hunk_header(hunk));
    let ghost head = string_views(lines@);
    assert(head =~= seq![file_path@ + ":"@, Seq::<char>::empty(), hunk_header_text(*hunk)]);
    assert(head + hunk_body(hunk.lines@, 0) =~= head);
    let mut j: usize = 0;
    while j < hunk.lines.len()
        invariant
            j <= hunk.lines@.len(),
            string_views(lines@) == head + hunk_body(hunk.lines@, j as int),
        decreases hunk.lines@.len() - j,
    {
        let ghost before = lines@;
        let text = diff_line(&hunk.lines[j]);
        lines.push(text);
        proof { lemma_string_views_push(before, text); }
        assert(string_views(lines@) =~= head + hunk_body(hunk.lines@, j + 1));
        j = j + 1;
    }
    lines
}

/// A row of the "Changed Files:" section: two spaces, the status letter, a
/// space, and the path.
pub open spec fn file_row_text(f: FileDiff) -> Seq<char> {
    "  "@ + status_indicator(file_status_of(f.status)) + " "@ + display_path(f)
}

/// Build the "Changed Files:" section listing each file with a status
/// indicator.
pub fn build_file_list_lines(files: &Vec<FileDiff>) -> (lines: Vec<String>)
    ensures
        string_views(lines@) == seq![Seq::<char>::empty(), "Changed Files:"@, Seq::<char>::empty()]
            + Seq::new(files@.len(), |i: int| file_row_text(files@[i])),
{
    let mut lines: Vec<String> = Vec::new();
    lines.push(String::new());
    lines.push(String::from_str("Changed Files:"));
    lines.push(String::new());
    let ghost head = string_views(lines@);
    let mut i: usize = 0;
    while i < files.len()
        invariant
            i <= files@.len(),
            head == seq![Seq::<char>::empty(), "Changed Files:"@, Seq::<char>::empty()],
            string_views(lines@) == head + Seq::new(i as nat, |k: int| file_row_text(files@[k])),
        decreases files@.len() - i,
    {
        let (status, path) = get_file_status_and_path(&files[i]);
        let mut row = String::from_str("  ");
        row.append(format_file_status(status));
        push_char(&mut row, ' ');
        row.append(path.as_str());
        proof {
            reveal_strlit("  ");
            reveal_strlit(" ");
        }
        assert(row@ =~= file_row_text(files@[i as int]));
        let ghost before_row = lines@;
        lines.push(row);
        proof { lemma_string_views_push(before_row, row); }
        assert(string_views(lines@) =~= head + Seq::new((i + 1) as nat, |k: int| file_row_text(files@[k])));
        i = i + 1;
    }
    lines
}

/// `s` without one `\r` at its end.
pub open spec fn drop_cr(s: Seq<char>) -> Seq<char> {
    if s.len() > 0 && s.last() == '\r' { s.drop_last() } else { s }
}

/// The lines of a text, as `str::lines` gives them: split at each `\n`,
/// a `\r` just before it dropped; a final line ending adds no empty line,
/// and the empty text has no lines.
pub open spec fn text_lines(s: Seq<char>) -> Seq<Seq<char>>
    decreases s.len(),
{
    if s.len() == 0 {
        Seq::empty()
    } else {
        let k = find_char(s, '\n') as int;
        if k < s.len() {
            seq![drop_cr(s.take(k))] + text_lines(s.skip(k + 1))
        } else {
            seq![s]
        }
    }
}

/// Split a text into its lines (see [`text_lines`]).
pub fn str_lines(t: &str) -> (r: Vec<String>)
    ensures
        string_views(r@) == text_lines(t@),
{
    let n = t.unicode_len();
    let mut r: Vec<String> = Vec::new();
    let mut start: usize = 0;
    let mut i: usize = 0;
    assert(t@.skip(0) =~= t@);
    assert(string_views(r@) =~= Seq::<Seq<char>>::empty());
    while i < n
        invariant
            n == t@.len(),
            start <= i <= n,
            forall|j: int| start <= j < i ==> t@[j] != '\n',
            string_views(r@) + text_lines(t@.skip(start as int)) =~= text_lines(t@),
        decreases n - i,
    {
        if t.get_char(i) == '\n' {
            let ghost rest = t@.skip(start as int);
            proof {
                lemma_find_char(rest, '\n', (i - start) as int);
                assert(rest.take((i - start) as int) =~= t@.subrange(start as int, i as int));
                assert(rest.skip((i - start + 1) as int) =~= t@.skip(i + 1));
            }
            let end = if i > start && t.get_char(i - 1) == '\r' { i - 1 } else { i };
            let line = t.substring_char(start, end);
            proof {
                let seg = t@.subrange(start as int, i as int);
                assert(line@ =~= drop_cr(seg));
            }
            let ghost before = string_views(r@);
            r.push(line.to_string());
            assert(string_views(r@) =~= before.push(line@));
            start = i + 1;
        }
        i = i + 1;
    }
    let ghost rest = t@.skip(start as int);
    if start < n {
        proof {
            lemma_find_char(rest, '\n', rest.len() as int);
            assert(t@.subrange(start as int, n as int) =~= rest);
        }
        let line = t.substring_char(start, n);
        let ghost before = string_views(r@);
        r.push(line.to_string());
        assert(string_views(r@) =~= before.push(rest));
    } else {
        assert(rest.len() == 0);
    }
    r
}

/// What the metadata section of the detail view shows of a commit; the
/// dates come already formatted.
pub struct CommitMetadata {
    /// The full commit id.
    pub oid: String,
    pub message: String,
    pub author: Option<String>,
    pub author_email: Option<String>,
    pub author_date: Option<String>,
    pub committer: Option<String>,
    pub committer_email: Option<String>,
    pub commit_date: Option<String>,
}

/// `name <email>`.
pub open spec fn person(name: Seq<char>, email: Seq<char>) -> Seq<char> {
    name + " <"@ + email + ">"@
}

/// The lines about the author, shown only when both name and e-mail are
/// known: the author, the author date, and then the committer (after a
/// blank line) and the commit date, each when known.
pub open spec fn author_block(c: CommitMetadata) -> Seq<Seq<char>> {
    match (c.author, c.author_email) {
        (Some(a), Some(e)) => {
            let author = seq!["Author: "@ + person(a@, e@)];
            let adate = match c.author_date { Some(d) => seq!["Author Date: "@ + d@], None => Seq::empty() };
            let committer = match (c.committer, c.committer_email) {
                (Some(n), Some(m)) => seq![Seq::empty(), "Committer: "@ + person(n@, m@)],
                _ => Seq::empty(),
            };
            let cdate = match c.commit_date { Some(d) => seq!["Commit Date: "@ + d@], None => Seq::empty() };
            author + adate + committer + cdate
        },
        _ => Seq::empty(),
    }
}

/// The metadata section: a blank line, the commit id, a blank line, the
/// message's lines, a blank line, then the author block.
pub open spec fn metadata_text(c: CommitMetadata) -> Seq<Seq<char>> {
    seq![Seq::empty(), "Commit: "@ + c.oid@, Seq::empty()] + text_lines(c.message@) + seq![Seq::<char>::empty()]
        + author_block(c)
}

fn labelled(label: &str, value: &str) -> (s: String)
    ensures
        s@ == label@ + value@,
{
    let mut s = label.to_owned();
    s.append(value);
    s
}

fn person_text(name: &String, email: &String) -> (s: String)
    ensures
        s@ == person(name@, email@),
{
    let mut s = name.clone();
    s.append(" <");
    s.append(email.as_str());
    s.append(">");
    s
}

fn push_line(v: &mut Vec<String>, line: String)
    ensures
        string_views(final(v)@) == string_views(old(v)@).push(line@),
{
    let ghost before = string_views(v@);
    v.push(line);
    assert(string_views(v@) =~= before.push(line@));
}

/// Build the metadata section of the detail view for a commit.
pub fn build_metadata_lines(c: &CommitMetadata) -> (lines: Vec<String>)
    ensures
        string_views(lines@) == metadata_text(*c),
{
    let mut lines: Vec<String> = Vec::new();
    push_line(&mut lines, String::new());
    push_line(&mut lines, labelled("Commit: ", c.oid.as_str()));
    push_line(&mut lines, String::new());
    let msg = str_lines(c.message.as_str());
    let mut i: usize = 0;
    let ghost head = string_views(lines@);
    while i < msg.len()
        invariant
            i <= msg@.len(),
            string_views(lines@) == head + string_views(msg@).take(i as int),
        decreases msg@.len() - i,
    {
        push_line(&mut lines, msg[i].clone());
        assert(string_views(msg@).take(i + 1) =~= string_views(msg@).take(i as int).push(msg@[i as int]@));
        assert(head + string_views(msg@).take(i + 1) =~= (head + string_views(msg@).take(i as int)).push(msg@[i as int]@));
        i = i + 1;
    }
    assert(string_views(msg@).take(msg@.len() as int) =~= string_views(msg@));
    push_line(&mut lines, String::new());
    let ghost before_author = string_views(lines@);
    if let (Some(a), Some(e)) = (&c.author, &c.author_email) {
        push_line(&mut lines, labelled("Author: ", person_text(a, e).as_str()));
        if let Some(d) = &c.author_date {
            push_line(&mut lines, labelled("Author Date: ", d.as_str()));
        }
        if let (Some(n), Some(m)) = (&c.committer, &c.committer_email) {
            push_line(&mut lines, String::new());
            push_line(&mut lines, labelled("Committer: ", person_text(n, m).as_str()));
        }
        if let Some(d) = &c.commit_date {
            push_line(&mut lines, labelled("Commit Date: ", d.as_str()));
        }
    }
    assert(string_views(lines@) =~= before_author + author_block(*c));
    assert(string_views(lines@) =~= metadata_text(*c));
    lines
}

} // verus!
