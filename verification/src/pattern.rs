//! Regular-expression matching, delegated to the `regex` crate.
//!
//! The matching engine is not verified. Its answers are given names here so
//! that callers can state exactly how they depend on them.

use vstd::prelude::*;

verus! {

/// Whether `regex::Regex::new` accepts `pattern`: the pattern is well
/// formed and compiles within the size limits that the crate sets itself.
pub uninterp spec fn pattern_compiles(pattern: Seq<char>) -> bool;

/// Whether `regex::Regex::is_match` finds a match somewhere in `text` for
/// the expression compiled from `pattern`. Only meaningful for a pattern
/// that compiles.
pub uninterp spec fn pattern_matches(pattern: Seq<char>, text: Seq<char>) -> bool;

/// Compiles `pattern` with `regex::Regex::new` and searches `text` with
/// `regex::Regex::is_match`.
///
/// Trusted: the contract claims that both outside functions depend on
/// their arguments alone. Whether the pattern compiles is named
/// `pattern_compiles`, and what the search finds is named
/// `pattern_matches`. A rejected pattern comes back as the text that the
/// error's `Display` writes; nothing is claimed about that text.
#[verifier::external_body]
pub(crate) fn search(pattern: &str, text: &str) -> (r: Result<bool, String>)
    ensures
        r is Ok <==> pattern_compiles(pattern@),
        r matches Ok(found) ==> found == pattern_matches(pattern@, text@),
{
    match regex::Regex::new(pattern) {
        Ok(compiled) => Ok(compiled.is_match(text)),
        Err(e) => Err(e.to_string()),
    }
}

} // verus!
