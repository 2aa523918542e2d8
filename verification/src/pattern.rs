//! Regular-expression search patterns, compiled and run by the `regex`
//! crate. What a pattern matches is the crate's business: the contracts
//! here name it (`pattern_compiles`, `pattern_finds`, `pattern_match_ranges`)
//! and state the few facts the crate's documentation gives.

use vstd::prelude::*;
use vstd::string::StringSliceAdditionalSpecFns;

verus! {

#[verifier::external_type_specification]
#[verifier::external_body]
pub struct ExRegex(regex::Regex);

#[verifier::external_type_specification]
#[verifier::external_body]
pub struct ExRegexError(regex::Error);

/// Whether `regex::RegexBuilder::new(pattern).build()` succeeds.
pub uninterp spec fn pattern_compiles(pattern: Seq<char>) -> bool;

/// Whether the regex compiled from `pattern` matches anywhere in `text`.
pub uninterp spec fn pattern_finds(pattern: Seq<char>, text: Seq<char>) -> bool;

/// The byte ranges of the successive non-overlapping matches of the regex
/// compiled from `pattern` in `text`.
pub uninterp spec fn pattern_match_ranges(pattern: Seq<char>, text: Seq<char>) -> Seq<(usize, usize)>;

/// A compiled search pattern, with the text it was compiled from.
pub struct SearchPattern {
    source: String,
    regex: regex::Regex,
}

impl View for SearchPattern {
    type V = Seq<char>;

    closed spec fn view(&self) -> Seq<char> {
        self.source@
    }
}

/// Ranges that are in order, non-overlapping and within `len` bytes.
pub open spec fn ranges_ordered(ranges: Seq<(usize, usize)>, len: nat) -> bool {
    &&& forall|i: int| 0 <= i < ranges.len() ==> #[trigger] ranges[i].0 <= ranges[i].1 && ranges[i].1 <= len
    &&& forall|i: int, j: int| 0 <= i < j < ranges.len() ==> #[trigger] ranges[i].1 <= #[trigger] ranges[j].0
}

/// Compiles `pattern` with `regex::RegexBuilder`'s default configuration.
/// Trusted: it succeeds exactly when `pattern_compiles(pattern)`, and the
/// pattern it returns was compiled from `pattern`; the error itself is
/// passed on as `regex::Error`.
#[verifier::external_body]
pub(crate) fn compile(pattern: &String) -> (r: Result<SearchPattern, regex::Error>)
    ensures
        r is Ok <==> pattern_compiles(pattern@),
        r matches Ok(p) ==> p@ == pattern@,
{
    match regex::RegexBuilder::new(pattern.as_str()).build() {
        Ok(regex) => Ok(SearchPattern { source: pattern.clone(), regex }),
        Err(e) => Err(e),
    }
}

/// The pattern of a search query, or `None` when it does not compile.
pub fn compile_query(query: &String) -> (r: Option<SearchPattern>)
    ensures
        r is Some <==> pattern_compiles(query@),
        r matches Some(p) ==> p@ == query@,
{
    match compile(query) {
        Ok(p) => Some(p),
        Err(_) => None,
    }
}

/// `regex::Regex::is_match`: documented to return true exactly when the
/// regex matches somewhere in `text`. Trusted to equal `pattern_finds`.
#[verifier::external_body]
pub(crate) fn finds(p: &SearchPattern, text: &str) -> (b: bool)
    ensures
        b == pattern_finds(p@, text@),
{
    p.regex.is_match(text)
}

/// `regex::Regex::find_iter`, each match taken as its byte range. Trusted:
/// the ranges are `pattern_match_ranges`; the documentation gives that they
/// are successive and non-overlapping, that each starts no later than it
/// ends, that they lie within the text, and that there is one exactly when
/// `is_match` is true.
#[verifier::external_body]
pub(crate) fn match_ranges(p: &SearchPattern, text: &str) -> (r: Vec<(usize, usize)>)
    ensures
        r@ == pattern_match_ranges(p@, text@),
        ranges_ordered(r@, text.spec_bytes().len()),
        r@.len() > 0 <==> pattern_finds(p@, text@),
{
    p.regex.find_iter(text).map(|m| (m.start(), m.end())).collect()
}

} // verus!
