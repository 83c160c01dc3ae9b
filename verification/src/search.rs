//! Regular-expression search through the `regex` crate.
use vstd::prelude::*;
use crate::text::{has_infix, plus_only_leads};

verus! {

/// Whether `regex::Regex::new` accepts `pattern`.
pub uninterp spec fn regex_compiles(pattern: Seq<char>) -> bool;

/// The text of the leftmost-first match that `regex::Regex::find` reports for the
/// expression `pattern` in `haystack` (`None` where there is no match).
pub uninterp spec fn regex_leftmost_match(pattern: Seq<char>, haystack: Seq<char>) -> Option<
    Seq<char>,
>;

/// The two number expressions of the library: an optional `+` followed by a
/// run of at least three (or six) digits, white space, parentheses, dashes,
/// slashes or dots.
pub open spec fn is_number_pattern(pattern: Seq<char>) -> bool {
    pattern == r"[\+]?[\d\s\(\)\-/\.]{3,}"@ || pattern == r"[\+]?[\d\s\(\)\-/\.]{6,}"@
}

/// The outcome of one search.
pub enum PatternSearch {
    /// The pattern does not compile.
    Invalid,
    /// The pattern compiles and does not match anywhere in the haystack.
    NoMatch,
    /// The text of the first match.
    Found(String),
}

/// What a search for `pattern` in `haystack` yields: the first match, or `None`
/// when the pattern does not compile or nothing matches.
pub open spec fn first_match(pattern: Seq<char>, haystack: Seq<char>) -> Option<Seq<char>> {
    if regex_compiles(pattern) {
        regex_leftmost_match(pattern, haystack)
    } else {
        None
    }
}

/// Compiles `pattern` with `regex::Regex::new` and, when that succeeds, searches
/// `haystack` with `Regex::find`, handing back `Match::as_str` of the match.
/// The contract claims: `Invalid` exactly when `Regex::new` rejects the pattern
/// (named `regex_compiles`), otherwise the first match as named by
/// `regex_leftmost_match`; and, as `Match::as_str` documents, that the matched
/// text is a contiguous part of the haystack. For the two number expressions
/// (`is_number_pattern`) it also claims what the documented syntax gives: `[\+]?`
/// matches at most one `+`, at the start, and the class `[\d\s\(\)\-/\.]` after
/// it holds digits, white space and `( ) - / .` only, so no later character of
/// a match is `+`. The regex semantics are not stated otherwise.
#[verifier::external_body]
pub(crate) fn regex_search(pattern: &str, haystack: &str) -> (r: PatternSearch)
    ensures
        r is Invalid <==> !regex_compiles(pattern@),
        r is NoMatch ==> regex_leftmost_match(pattern@, haystack@) is None,
        r matches PatternSearch::Found(t) ==> regex_leftmost_match(pattern@, haystack@) == Some(
            t@,
        ),
        r matches PatternSearch::Found(t) ==> has_infix(haystack@, t@),
        is_number_pattern(pattern@) ==> (r matches PatternSearch::Found(t) ==> plus_only_leads(
            t@,
        )),
{
    match regex::Regex::new(pattern) {
        Err(_) => PatternSearch::Invalid,
        Ok(re) => match re.find(haystack) {
            None => PatternSearch::NoMatch,
            Some(m) => PatternSearch::Found(m.as_str().to_string()),
        },
    }
}

/// Searches `haystack` for `pattern`; `None` when the pattern does not compile or
/// does not match. A match is a contiguous part of the haystack; for a number
/// expression, a `+` in it can only be its first character.
pub fn find_first(pattern: &str, haystack: &str) -> (r: Option<String>)
    ensures
        match r {
            Some(t) => first_match(pattern@, haystack@) == Some(t@) && has_infix(haystack@, t@)
                && (is_number_pattern(pattern@) ==> plus_only_leads(t@)),
            None => first_match(pattern@, haystack@) is None,
        },
{
    match regex_search(pattern, haystack) {
        PatternSearch::Found(t) => Some(t),
        _ => None,
    }
}

} // verus!
