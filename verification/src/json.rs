//! JSON text of the two kinds of value that a request body is made of.

use vstd::prelude::*;

verus! {

/// The JSON string literal that `serde_json::to_string` writes for `text`:
/// the text between double quotes, with the characters escaped that JSON
/// does not allow bare.
pub uninterp spec fn string_literal(text: Seq<char>) -> Seq<char>;

/// The digit `d`, for `d` below ten.
pub open spec fn digit(d: nat) -> char {
    (48 + d) as u8 as char
}

/// `n` in decimal notation, without sign or leading zeros.
pub open spec fn decimal(n: nat) -> Seq<char>
    decreases n,
{
    if n < 10 {
        seq![digit(n)]
    } else {
        decimal(n / 10).push(digit(n % 10))
    }
}

/// `serde_json::to_string` on a `str`. It reports an error only where the
/// value's own serialisation fails or a map has a key that is no string;
/// a `str` gives rise to neither, so the call succeeds, and its result is
/// the string literal.
#[verifier::external_body]
pub(crate) fn str_to_json(text: &str) -> (r: Result<String, serde_json::Error>)
    ensures
        r is Ok,
        r matches Ok(json) ==> json@ == string_literal(text@),
{
    serde_json::to_string(text)
}

/// `serde_json::to_string` on a `usize`, which succeeds for the same reason
/// and writes the number in decimal.
#[verifier::external_body]
pub(crate) fn usize_to_json(n: usize) -> (r: Result<String, serde_json::Error>)
    ensures
        r is Ok,
        r matches Ok(json) ==> json@ == decimal(n as nat),
{
    serde_json::to_string(&n)
}

} // verus!
