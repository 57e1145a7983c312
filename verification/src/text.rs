//! Text helpers shared by the validators and the command builder.
//!
//! Contracts in this crate speak of strings through their views, sequences of
//! `char`. This module holds the few sequence functions those contracts need
//! together with executable counterparts that are proved against them.

use vstd::prelude::*;
use vstd::string::StringExecFns;
use vstd::utf8::encode_utf8;

verus! {

/// Number of bytes that `s` occupies when encoded as UTF-8, as `str::len`
/// reports it.
pub open spec fn byte_len(s: Seq<char>) -> usize {
    encode_utf8(s).len() as usize
}

/// Whether `s` begins with `prefix`.
pub open spec fn starts_with(s: Seq<char>, prefix: Seq<char>) -> bool {
    prefix.len() <= s.len() && s.subrange(0, prefix.len() as int) == prefix
}

/// A text begins with whatever it was built from first.
pub proof fn lemma_starts_with_its_prefix(prefix: Seq<char>, rest: Seq<char>)
    ensures
        starts_with(prefix + rest, prefix),
{
    assert((prefix + rest).subrange(0, prefix.len() as int) =~= prefix);
}

/// What a check reports, with the message of a rejection taken by its view.
pub open spec fn verdict(r: Result<(), String>) -> Result<(), Seq<char>> {
    match r {
        Ok(_) => Ok(()),
        Err(message) => Err(message@),
    }
}

/// The decimal digit for `d`, where `d` is below ten.
pub open spec fn digit_char(d: nat) -> char {
    if d == 0 {
        '0'
    } else if d == 1 {
        '1'
    } else if d == 2 {
        '2'
    } else if d == 3 {
        '3'
    } else if d == 4 {
        '4'
    } else if d == 5 {
        '5'
    } else if d == 6 {
        '6'
    } else if d == 7 {
        '7'
    } else if d == 8 {
        '8'
    } else {
        '9'
    }
}

/// Decimal rendering of `n` without sign, padding or leading zeros.
pub open spec fn decimal(n: nat) -> Seq<char>
    decreases n,
{
    if n < 10 {
        seq![digit_char(n)]
    } else {
        decimal(n / 10).push(digit_char(n % 10))
    }
}

/// `parts` laid end to end with `sep` between neighbours. No separator is
/// written before the first part or after the last one.
pub open spec fn joined(parts: Seq<Seq<char>>, sep: Seq<char>) -> Seq<char>
    decreases parts.len(),
{
    if parts.len() == 0 {
        Seq::empty()
    } else if parts.len() == 1 {
        parts[0]
    } else {
        joined(parts.drop_last(), sep) + sep + parts.last()
    }
}

/// Whether two string slices hold the same text.
pub fn same_text(a: &str, b: &str) -> (r: bool)
    ensures
        r == (a@ == b@),
{
    let left = a.to_owned();
    let right = b.to_owned();
    left == right
}

fn digit_text(d: usize) -> (r: &'static str)
    requires
        d < 10,
    ensures
        r@ == seq![digit_char(d as nat)],
{
    proof {
        reveal_strlit("0");
        reveal_strlit("1");
        reveal_strlit("2");
        reveal_strlit("3");
        reveal_strlit("4");
        reveal_strlit("5");
        reveal_strlit("6");
        reveal_strlit("7");
        reveal_strlit("8");
        reveal_strlit("9");
    }
    let r = if d == 0 {
        "0"
    } else if d == 1 {
        "1"
    } else if d == 2 {
        "2"
    } else if d == 3 {
        "3"
    } else if d == 4 {
        "4"
    } else if d == 5 {
        "5"
    } else if d == 6 {
        "6"
    } else if d == 7 {
        "7"
    } else if d == 8 {
        "8"
    } else {
        "9"
    };
    assert(r@ =~= seq![digit_char(d as nat)]);
    r
}

/// Renders `n` in decimal.
pub fn decimal_text(n: usize) -> (r: String)
    ensures
        r@ == decimal(n as nat),
    decreases n,
{
    if n < 10 {
        String::from_str(digit_text(n))
    } else {
        let mut out = decimal_text(n / 10);
        out.append(digit_text(n % 10));
        assert(out@ =~= decimal(n as nat));
        out
    }
}

/// Concatenates `parts`, writing `sep` between neighbours.
pub fn join_with(parts: &Vec<String>, sep: &str) -> (r: String)
    ensures
        r@ == joined(parts.deep_view(), sep@),
{
    let mut out = String::new();
    let mut i: usize = 0;
    while i < parts.len()
        invariant
            i <= parts.len(),
            out@ == joined(parts.deep_view().take(i as int), sep@),
        decreases parts.len() - i,
    {
        proof {
            let before = parts.deep_view().take(i as int);
            let after = parts.deep_view().take(i + 1);
            assert(after.drop_last() =~= before);
            assert(after.last() == parts[i as int]@);
        }
        if i > 0 {
            out.append(sep);
        }
        out.append(parts[i].as_str());
        proof {
            let after = parts.deep_view().take(i + 1);
            if i == 0 {
                assert(out@ =~= after[0]);
            }
        }
        i = i + 1;
    }
    assert(parts.deep_view().take(parts.len() as int) =~= parts.deep_view());
    out
}

} // verus!
