//! Trusted boundary to the `regex` crate. A pattern is compiled once, during
//! pipeline assembly, and the compiled value is reused for every batch. What
//! the engine computes is named, not restated: the names below stand for the
//! crate's results, as functions of the pattern and the haystack alone.

use vstd::prelude::*;

verus! {

#[verifier::external_type_specification]
#[verifier::external_body]
pub struct ExRegex(regex::bytes::Regex);

#[verifier::external_type_specification]
#[verifier::external_body]
pub struct ExRegexError(regex::Error);

/// The pattern a compiled regex was built from.
pub uninterp spec fn pattern_source(re: regex::bytes::Regex) -> Seq<char>;

/// Whether `regex::bytes::Regex::new` accepts the pattern.
pub uninterp spec fn pattern_valid(pattern: Seq<char>) -> bool;

/// `haystack` with every non-overlapping match of the pattern replaced by the
/// replacement (with `$name` groups expanded).
pub uninterp spec fn regex_replace_all(
    pattern: Seq<char>,
    haystack: Seq<u8>,
    rep: Seq<u8>,
) -> Seq<u8>;

/// The substrings of `haystack` delimited by matches of the pattern, in order.
pub uninterp spec fn regex_split(pattern: Seq<char>, haystack: Seq<u8>) -> Seq<Seq<u8>>;

/// The successive non-overlapping matches of the pattern in `haystack`, in
/// order.
pub uninterp spec fn regex_find_all(pattern: Seq<char>, haystack: Seq<u8>) -> Seq<Seq<u8>>;

/// Relies on `regex::bytes::Regex::new`: compiles the pattern, returning an
/// error exactly on the patterns it rejects; the compiled value answers for
/// the pattern it was built from.
#[verifier::external_body]
pub fn compile_pattern(pattern: &str) -> (r: Result<regex::bytes::Regex, regex::Error>)
    ensures
        r is Ok <==> pattern_valid(pattern@),
        r matches Ok(re) ==> pattern_source(re) == pattern@,
{
    regex::bytes::Regex::new(pattern)
}

/// Relies on `regex::bytes::Regex::replace_all` with a byte-slice replacement:
/// the result depends only on the pattern, the haystack and the replacement.
#[verifier::external_body]
pub fn pattern_replace_all(re: &regex::bytes::Regex, haystack: &[u8], rep: &[u8]) -> (r: Vec<u8>)
    ensures
        r@ == regex_replace_all(pattern_source(*re), haystack@, rep@),
{
    re.replace_all(haystack, rep).into_owned()
}

/// Relies on `regex::bytes::Regex::split`: yields the substrings between
/// matches, a function of the pattern and the haystack alone; a haystack the
/// pattern never matches comes back whole, as the one substring.
#[verifier::external_body]
pub fn pattern_split(re: &regex::bytes::Regex, haystack: &[u8]) -> (r: Vec<Vec<u8>>)
    ensures
        r.deep_view() == regex_split(pattern_source(*re), haystack@),
        regex_find_all(pattern_source(*re), haystack@).len() == 0 ==> r.deep_view() == seq![
            haystack@,
        ],
{
    re.split(haystack).map(|t| t.to_vec()).collect()
}

/// Relies on `regex::bytes::Regex::find_iter`: yields the non-overlapping
/// matches from left to right, a function of the pattern and the haystack
/// alone.
#[verifier::external_body]
pub fn pattern_find_all(re: &regex::bytes::Regex, haystack: &[u8]) -> (r: Vec<Vec<u8>>)
    ensures
        r.deep_view() == regex_find_all(pattern_source(*re), haystack@),
{
    re.find_iter(haystack).map(|m| m.as_bytes().to_vec()).collect()
}

} // verus!
