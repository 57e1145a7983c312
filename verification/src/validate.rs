//! Input validation: file names, bounded strings and theme names.

use vstd::prelude::*;
use vstd::string::StringExecFns;
use crate::pattern::{pattern_compiles, pattern_matches, search};
use crate::text::{
    byte_len, decimal, decimal_text, lemma_starts_with_its_prefix, same_text, starts_with, verdict,
};

verus! {

/// Shape of an acceptable file name: letters, digits, `_` and `-`, optionally
/// followed by one dot and an extension of letters and digits.
pub const FILENAME_PATTERN: &'static str = r"^[a-zA-Z0-9_-]+(\.[a-zA-Z0-9]+)?$";

/// Longest acceptable file name, in bytes.
pub const MAX_FILENAME_LEN: usize = 100;

/// Longest name that `greet` accepts, in bytes.
pub const MAX_GREETING_NAME_LEN: usize = 100;

/// Message for a string of more than `max_len` bytes in the field `field_name`.
pub open spec fn too_long_message(field_name: Seq<char>, max_len: nat) -> Seq<char> {
    field_name + " too long (max "@ + decimal(max_len) + " characters)"@
}

/// A string passes when it is at most `max_len` bytes long.
pub open spec fn string_input_verdict(
    input: Seq<char>,
    max_len: usize,
    field_name: Seq<char>,
) -> Result<(), Seq<char>> {
    if byte_len(input) > max_len {
        Err(too_long_message(field_name, max_len as nat))
    } else {
        Ok(())
    }
}

/// Rejects `input` when it is longer than `max_len` bytes, naming the field
/// and the limit in the message.
pub fn validate_string_input(input: &str, max_len: usize, field_name: &str) -> (r: Result<
    (),
    String,
>)
    ensures
        verdict(r) == string_input_verdict(input@, max_len, field_name@),
{
    if input.len() > max_len {
        let mut message = String::from_str(field_name);
        message.append(" too long (max ");
        message.append(decimal_text(max_len).as_str());
        message.append(" characters)");
        Err(message)
    } else {
        Ok(())
    }
}

/// The themes that the preferences may name.
pub open spec fn is_known_theme(theme: Seq<char>) -> bool {
    theme == "light"@ || theme == "dark"@ || theme == "system"@
}

/// A theme passes when it is one of the known themes.
pub open spec fn theme_verdict(theme: Seq<char>) -> Result<(), Seq<char>> {
    if is_known_theme(theme) {
        Ok(())
    } else {
        Err("Invalid theme: must be 'light', 'dark', or 'system'"@)
    }
}

/// Accepts exactly the themes `light`, `dark` and `system`.
pub fn validate_theme(theme: &str) -> (r: Result<(), String>)
    ensures
        verdict(r) == theme_verdict(theme@),
{
    if same_text(theme, "light") || same_text(theme, "dark") || same_text(theme, "system") {
        Ok(())
    } else {
        Err(String::from_str("Invalid theme: must be 'light', 'dark', or 'system'"))
    }
}

/// Verdict on a file name, given whether it matched `FILENAME_PATTERN`.
/// The checks apply in this order: empty, too long, wrong shape.
pub open spec fn filename_verdict(filename: Seq<char>, matched: bool) -> Result<(), Seq<char>> {
    if filename.len() == 0 {
        Err("Filename cannot be empty"@)
    } else if byte_len(filename) > MAX_FILENAME_LEN {
        Err("Filename too long (max 100 characters)"@)
    } else if !matched {
        Err(
            "Invalid filename: only alphanumeric characters, dashes, underscores, and dots allowed"@,
        )
    } else {
        Ok(())
    }
}

/// Verdict on a file name once the pattern search has answered.
///
/// A search that failed because the pattern did not compile is reported
/// first, whatever the name; otherwise `filename_verdict` decides.
pub open spec fn filename_verdict_after(filename: Seq<char>, scan: Result<bool, Seq<char>>) -> Result<
    (),
    Seq<char>,
> {
    match scan {
        Err(e) => Err(pattern_failure_prefix() + e),
        Ok(matched) => filename_verdict(filename, matched),
    }
}

/// Decides on `filename` from the outcome `scan` of searching it for
/// `FILENAME_PATTERN`.
pub fn judge_filename(filename: &str, scan: Result<bool, String>) -> (r: Result<(), String>)
    ensures
        verdict(r) == filename_verdict_after(
            filename@,
            match scan {
                Ok(matched) => Ok(matched),
                Err(e) => Err(e@),
            },
        ),
{
    match scan {
        Err(e) => {
            let mut message = String::from_str("Regex compilation error: ");
            message.append(e.as_str());
            Err(message)
        },
        Ok(matched) => {
            if filename.is_empty() {
                Err(String::from_str("Filename cannot be empty"))
            } else if filename.len() > MAX_FILENAME_LEN {
                Err(String::from_str("Filename too long (max 100 characters)"))
            } else if !matched {
                Err(
                    String::from_str(
                        "Invalid filename: only alphanumeric characters, dashes, underscores, and dots allowed",
                    ),
                )
            } else {
                Ok(())
            }
        },
    }
}

/// How the report of a pattern that did not compile begins.
pub open spec fn pattern_failure_prefix() -> Seq<char> {
    "Regex compilation error: "@
}

/// Accepts a file name that is not empty, at most `MAX_FILENAME_LEN` bytes
/// long and of the shape `FILENAME_PATTERN`.
///
/// With a pattern that compiles, the verdict is `filename_verdict` on what
/// the pattern search finds. With one that does not, every name is
/// rejected with the report of the pattern.
pub fn validate_filename(filename: &str) -> (r: Result<(), String>)
    ensures
        pattern_compiles(FILENAME_PATTERN@) ==> verdict(r) == filename_verdict(
            filename@,
            pattern_matches(FILENAME_PATTERN@, filename@),
        ),
        !pattern_compiles(FILENAME_PATTERN@) ==> (r matches Err(message) && starts_with(
            message@,
            pattern_failure_prefix(),
        )),
{
    let scan = search(FILENAME_PATTERN, filename);
    proof {
        if scan is Err {
            lemma_starts_with_its_prefix(pattern_failure_prefix(), scan->Err_0@);
        }
    }
    judge_filename(filename, scan)
}

/// Text of the greeting for `name`.
pub open spec fn greeting(name: Seq<char>) -> Seq<char> {
    match string_input_verdict(name, MAX_GREETING_NAME_LEN, "Name"@) {
        Err(e) => "Error: "@ + e,
        Ok(_) => "Hello, "@ + name + "! You've been greeted from Rust!"@,
    }
}

/// Greets `name`, or reports why the name is not acceptable.
pub fn greet(name: &str) -> (r: String)
    ensures
        r@ == greeting(name@),
{
    match validate_string_input(name, MAX_GREETING_NAME_LEN, "Name") {
        Err(e) => {
            let mut out = String::from_str("Error: ");
            out.append(e.as_str());
            out
        },
        Ok(_) => {
            let mut out = String::from_str("Hello, ");
            out.append(name);
            out.append("! You've been greeted from Rust!");
            out
        },
    }
}

} // verus!
