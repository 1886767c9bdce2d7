//! The two outside pattern engines, seen through named results: what each
//! engine computes is a function of the pattern and the text alone, so the
//! library gives those results names and states everything else over them.

use vstd::prelude::*;

verus! {

/// Whether the regex engine accepts `pattern` as a valid pattern.
pub uninterp spec fn regex_valid(pattern: Seq<char>) -> bool;

/// Whether the regex compiled from `pattern` matches somewhere in `text`.
pub uninterp spec fn regex_match(pattern: Seq<char>, text: Seq<char>) -> bool;

/// Whether the single-segment wildcard `pattern` (`*` and `?`) matches `text`.
pub uninterp spec fn wild_match(pattern: Seq<char>, text: Seq<char>) -> bool;

#[verifier::external_type_specification]
#[verifier::external_body]
pub struct ExRegexError(regex::Error);

/// Relies on regex::Regex::new: whether a pattern compiles is a function of
/// the pattern alone, and the error describes the pattern, not any directory.
#[verifier::external_body]
pub(crate) fn regex_check(pattern: &str) -> (r: Result<(), regex::Error>)
    ensures
        r is Ok <==> regex_valid(pattern@),
{
    regex::Regex::new(pattern).map(|_re| ())
}

/// Relies on regex::Regex::is_match, on the matcher regex::Regex::new
/// compiles from `pattern`: the result is a function of pattern and text
/// alone.
#[verifier::external_body]
pub(crate) fn regex_matches(pattern: &str, text: &str) -> (r: bool)
    requires
        regex_valid(pattern@),
    ensures
        r == regex_match(pattern@, text@),
{
    regex::Regex::new(pattern).map(|re| re.is_match(text)).unwrap_or(false)
}

/// Relies on wildmatch::WildMatch: `new` accepts every pattern, and
/// `matches` is a function of the pattern and text alone.
#[verifier::external_body]
pub(crate) fn wildcard_matches(pattern: &str, text: &str) -> (r: bool)
    ensures
        r == wild_match(pattern@, text@),
{
    wildmatch::WildMatch::new(pattern).matches(text)
}

} // verus!
