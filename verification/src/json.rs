//! JSON values, read and written by the `serde_json` crate.
//!
//! A value is carried through this crate without being looked into.

use vstd::prelude::*;

verus! {

/// `serde_json::Value`, opaque to the verifier.
#[verifier::external_type_specification]
#[verifier::external_body]
pub struct ExValue(serde_json::Value);

/// What `serde_json::from_str` reads from `text`: the value, or nothing
/// where the reader refuses the text.
pub uninterp spec fn read_json(text: Seq<char>) -> Option<serde_json::Value>;

/// Whether the reader accepts `text`. It accepts one JSON value with
/// nothing but white space around it, and refuses, besides text that is
/// not JSON, a value nested deeper than its own limit and a number out of
/// its range.
pub open spec fn is_json(text: Seq<char>) -> bool {
    read_json(text) is Some
}

/// Reads `text` as one JSON value with `serde_json::from_str`.
///
/// Trusted: the contract claims that what is read depends on the text
/// alone, and names it `read_json`. Nothing is claimed about which texts
/// are read or what the value holds. A failure comes back as the text that
/// the error's `Display` writes; nothing is claimed about that text.
#[verifier::external_body]
pub(crate) fn parse(text: &str) -> (r: Result<serde_json::Value, String>)
    ensures
        match r {
            Ok(value) => read_json(text@) == Some(value),
            Err(_) => read_json(text@) is None,
        },
{
    match serde_json::from_str::<serde_json::Value>(text) {
        Ok(value) => Ok(value),
        Err(e) => Err(e.to_string()),
    }
}

/// What `serde_json::to_string` gives for `value`: its text on one line,
/// or the text of the error.
pub uninterp spec fn compact_text(value: serde_json::Value) -> Result<Seq<char>, Seq<char>>;

/// What `serde_json::to_string_pretty` gives for `value`: its indented
/// text, or the text of the error.
pub uninterp spec fn pretty_text(value: serde_json::Value) -> Result<Seq<char>, Seq<char>>;

/// Writes `value` on one line with `serde_json::to_string`.
///
/// Trusted: the contract claims that what is written, or the failure,
/// depends on the value alone, and names it `compact_text`. Nothing is
/// claimed about which values can be written or what the text holds. A
/// failure comes back as the text that the error's `Display` writes.
#[verifier::external_body]
pub(crate) fn to_compact(value: &serde_json::Value) -> (r: Result<String, String>)
    ensures
        match r {
            Ok(text) => compact_text(*value) == Ok::<Seq<char>, Seq<char>>(text@),
            Err(reason) => compact_text(*value) == Err::<Seq<char>, Seq<char>>(reason@),
        },
{
    match serde_json::to_string(value) {
        Ok(text) => Ok(text),
        Err(e) => Err(e.to_string()),
    }
}

/// Writes `value` indented with `serde_json::to_string_pretty`.
///
/// Trusted: the contract claims that what is written, or the failure,
/// depends on the value alone, and names it `pretty_text`. Nothing is
/// claimed about which values can be written or what the text holds. A
/// failure comes back as the text that the error's `Display` writes.
#[verifier::external_body]
pub(crate) fn to_pretty(value: &serde_json::Value) -> (r: Result<String, String>)
    ensures
        match r {
            Ok(text) => pretty_text(*value) == Ok::<Seq<char>, Seq<char>>(text@),
            Err(reason) => pretty_text(*value) == Err::<Seq<char>, Seq<char>>(reason@),
        },
{
    match serde_json::to_string_pretty(value) {
        Ok(text) => Ok(text),
        Err(e) => Err(e.to_string()),
    }
}

} // verus!
