//! Identifiers: UUIDs are handled as their 128-bit value.

use vstd::arithmetic::power::pow;
use vstd::prelude::*;

verus! {

/// The lower-case hexadecimal digit for `n` (0 to 15).
pub open spec fn hex_digit(n: int) -> char {
    if n < 10 {
        (48 + n) as char
    } else {
        (87 + n) as char
    }
}

/// The `k`-th hexadecimal digit of `x`, counted from the most significant
/// (`k` from 0 to 31).
pub open spec fn hex_digit_of(x: u128, k: int) -> int {
    (x as int / pow(16, (31 - k) as nat)) % 16
}

/// The hyphenated lower-case text of a UUID: 32 hexadecimal digits in groups
/// of 8, 4, 4, 4 and 12, separated by `-`.
pub open spec fn uuid_text(x: u128) -> Seq<char> {
    Seq::new(
        36,
        |p: int|
            if p == 8 || p == 13 || p == 18 || p == 23 {
                '-'
            } else {
                let dashes = (if p > 8 { 1int } else { 0 }) + (if p > 13 { 1int } else { 0 }) + (
                if p > 18 { 1int } else { 0 }) + (if p > 23 { 1int } else { 0 });
                hex_digit(hex_digit_of(x, p - dashes))
            },
    )
}

/// Calls `uuid::Uuid::from_u128` and formats the UUID with `to_string`, which
/// writes the hyphenated lower-case form; `Uuid::parse_str` reads that form
/// back as the same UUID.
#[verifier::external_body]
pub(crate) fn uuid_to_string(id: u128) -> (r: String)
    ensures
        r@ == uuid_text(id),
        uuid_parse_spec(r@) == Some(id),
{
    uuid::Uuid::from_u128(id).to_string()
}

/// What `uuid::Uuid::parse_str` yields for a string, as a 128-bit value
/// (`None` when the text is not a UUID in one of the accepted formats).
pub uninterp spec fn uuid_parse_spec(s: Seq<char>) -> Option<u128>;

/// Calls `uuid::Uuid::parse_str`; a parse error becomes `None`, a UUID its
/// `as_u128` value. The result is named by `uuid_parse_spec`.
#[verifier::external_body]
pub(crate) fn parse_uuid(s: &str) -> (r: Option<u128>)
    ensures
        r == uuid_parse_spec(s@),
{
    match uuid::Uuid::parse_str(s) {
        Ok(u) => Some(u.as_u128()),
        Err(_) => None,
    }
}

/// Calls `uuid::Uuid::new_v4` and returns the UUID's 128-bit value. Nothing
/// is stated of it: the value is random.
#[verifier::external_body]
pub(crate) fn new_v4_value() -> u128 {
    uuid::Uuid::new_v4().as_u128()
}

/// A fresh random identifier in hyphenated text form.
pub fn random_id_text() -> (r: String)
    ensures
        exists|x: u128| r@ == uuid_text(x),
{
    let v = new_v4_value();
    uuid_to_string(v)
}

} // verus!
