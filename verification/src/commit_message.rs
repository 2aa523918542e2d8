//! Commit messages produced by the split and autofixup operations.

use vstd::prelude::*;
use crate::text::{
    all_ws, decimal, find_char, index_of_char, is_blank, lemma_find_char_bounds, push_char,
    push_decimal, trim_end, trimmed_end_len,
};

verus! {

/// The summary line of a message: everything before the first newline, with
/// trailing white space removed.
pub open spec fn summary_line(s: Seq<char>) -> Seq<char> {
    trim_end(s.take(find_char(s, '\n') as int))
}

/// Everything after the first newline (empty when there is none).
pub open spec fn body_text(s: Seq<char>) -> Seq<char> {
    if find_char(s, '\n') < s.len() {
        s.skip(find_char(s, '\n') as int + 1)
    } else {
        Seq::empty()
    }
}

/// `original` with ` (label)` appended to its summary line; the body is kept
/// unchanged after a newline unless it is blank, in which case it is dropped.
pub open spec fn labelled_message(original: Seq<char>, label: Seq<char>) -> Seq<char> {
    let head = summary_line(original) + seq![' ', '('] + label + seq![')'];
    if all_ws(body_text(original)) {
        head
    } else {
        head + seq!['\n'] + body_text(original)
    }
}

/// The `n/total` label of a split piece.
pub open spec fn piece_label(n: nat, total: nat) -> Seq<char> {
    decimal(n) + seq!['/'] + decimal(total)
}

/// Append a parenthesised `suffix` to the summary line of `original`, keeping
/// the body intact.  Used by the "split out file" operation to mark the
/// peeled-out commit with the file name.
pub fn summary_suffix_message(original: &str, suffix: &str) -> (r: String)
    ensures
        r@ == labelled_message(original@, suffix@),
{
    let n = original.unicode_len();
    let k = index_of_char(original, '\n');
    proof { lemma_find_char_bounds(original@, '\n'); }
    let head = original.substring_char(0, k);
    let t = trimmed_end_len(head);
    let first = head.substring_char(0, t);
    let mut out = String::from_str(first);
    push_char(&mut out, ' ');
    push_char(&mut out, '(');
    out.append(suffix);
    push_char(&mut out, ')');
    proof {
        assert(head@ == original@.take(k as int));
        assert(first@ == summary_line(original@));
        assert(out@ =~= summary_line(original@) + seq![' ', '('] + suffix@ + seq![')']);
    }
    if k < n {
        let rest = original.substring_char(k + 1, n);
        assert(rest@ =~= body_text(original@));
        if !is_blank(rest) {
            push_char(&mut out, '\n');
            out.append(rest);
        }
    } else {
        assert(body_text(original@) =~= Seq::<char>::empty());
    }
    out
}

/// Build the commit message for the n-th commit in a split sequence.
///
/// The first line of the original message is kept and suffixed with "(n/total)".
/// If the original message has a body (text after the first line), it is
/// appended unchanged so no information is lost.
pub fn split_message(original: &str, n: usize, total: usize) -> (r: String)
    ensures
        r@ == labelled_message(original@, piece_label(n as nat, total as nat)),
{
    let mut label = String::new();
    push_decimal(&mut label, n);
    push_char(&mut label, '/');
    push_decimal(&mut label, total);
    assert(label@ =~= piece_label(n as nat, total as nat));
    summary_suffix_message(original, label.as_str())
}

} // verus!
