//! External identifiers: 128-bit values written in the hyphenated
//! lowercase hexadecimal form, parsed and printed by the `uuid` crate.
use vstd::prelude::*;

verus! {

/// The lowercase hexadecimal digit of `d` (`0 <= d < 16`).
pub open spec fn hex_char(d: int) -> char {
    seq!['0', '1', '2', '3', '4', '5', '6', '7', '8', '9', 'a', 'b', 'c', 'd', 'e', 'f'][d]
}

/// The `i`-th four-bit group of `x`, counting from the most significant.
pub open spec fn nibble(x: u128, i: int) -> int {
    ((x >> ((124 - 4 * i) as u128)) & 15u128) as int
}

/// The hexadecimal digits of the groups `from .. to` of `x`.
pub open spec fn hex_digits(x: u128, from: int, to: int) -> Seq<char> {
    Seq::new((to - from) as nat, |k: int| hex_char(nibble(x, from + k)))
}

/// The hyphenated form of an identifier: 8-4-4-4-12 lowercase hex digits.
pub open spec fn uuid_text(x: u128) -> Seq<char> {
    hex_digits(x, 0, 8) + seq!['-'] + hex_digits(x, 8, 12) + seq!['-'] + hex_digits(x, 12, 16)
        + seq!['-'] + hex_digits(x, 16, 20) + seq!['-'] + hex_digits(x, 20, 32)
}

/// What `uuid::Uuid::parse_str` makes of a text, as a 128-bit value.
pub uninterp spec fn parsed_uuid(s: Seq<char>) -> Option<u128>;

/// Relies on `uuid::Uuid::parse_str`: the outcome depends on the text alone,
/// and the hyphenated lowercase form of a value parses back to that value.
#[verifier::external_body]
pub(crate) fn parse_uuid(s: &str) -> (r: Option<u128>)
    ensures
        r == parsed_uuid(s@),
        forall|v: u128| s@ == uuid_text(v) ==> r == Some(v),
{
    uuid::Uuid::parse_str(s).ok().map(|u| u.as_u128())
}

/// Relies on `uuid::Uuid`'s `Display` (through `to_string`), which writes the
/// hyphenated lowercase form.
#[verifier::external_body]
pub(crate) fn format_uuid(x: u128) -> (r: String)
    ensures
        r@ == uuid_text(x),
{
    uuid::Uuid::from_u128(x).to_string()
}

} // verus!
