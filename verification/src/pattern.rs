//! Regular-expression search, delegated to the `regex` crate.

use regex::Regex;
use vstd::prelude::*;

verus! {

/// What the `regex` crate answers for a pattern and a text: `Some(found)`
/// where the pattern compiles, `found` telling whether the text holds a
/// match of it; `None` where the pattern does not compile.
pub uninterp spec fn regex_search(pattern: Seq<char>, text: Seq<char>) -> Option<bool>;

/// Compiles `pattern` with `regex::Regex::new` and searches `text` with
/// `regex::Regex::is_match`.
///
/// Not proved: that the answer depends on the two strings alone, which is
/// all the contract claims. Compilation and search use no state besides the
/// pattern and the text.
#[verifier::external_body]
pub(crate) fn search(pattern: &str, text: &str) -> (found: Option<bool>)
    ensures
        found == regex_search(pattern@, text@),
{
    match Regex::new(pattern) {
        Ok(re) => Some(re.is_match(text)),
        Err(_) => None,
    }
}

/// Whether `text` matches `pattern`; a pattern that does not compile
/// matches nothing.
pub fn is_match(pattern: &str, text: &str) -> (found: bool)
    ensures
        found == accepts(pattern@, text@),
{
    found_in(search(pattern, text))
}

/// Reads the outcome of a search: only a successful search that found a
/// match counts.
pub fn found_in(outcome: Option<bool>) -> (found: bool)
    ensures
        found == (outcome == Some(true)),
{
    match outcome {
        Some(found) => found,
        None => false,
    }
}

/// `text` matches `pattern`, and `pattern` compiles.
pub open spec fn accepts(pattern: Seq<char>, text: Seq<char>) -> bool {
    regex_search(pattern, text) == Some(true)
}

} // verus!
