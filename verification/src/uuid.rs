//! Identifiers of stored rows.

use vstd::prelude::*;

verus! {

/// A UUID, as the number that its 128 bits make up.
#[derive(Debug, Clone, Copy, PartialEq, Eq, Structural)]
pub struct Uuid(pub u128);

/// The character of a hexadecimal digit, in lower case.
pub open spec fn hex_char(digit: int) -> char {
    if digit < 10 {
        ('0' as int + digit) as char
    } else {
        ('a' as int + digit - 10) as char
    }
}

/// The hexadecimal digit at a place among the 32 of a UUID, counted from the left.
pub open spec fn hex_digit(id: Uuid, place: int) -> int {
    (id.0 as int / vstd::arithmetic::power::pow(16, (31 - place) as nat)) % 16
}

/// How many hyphens stand before a place in the text of a UUID.
pub open spec fn hyphens_before(place: int) -> int {
    if place <= 8 {
        0
    } else if place <= 13 {
        1
    } else if place <= 18 {
        2
    } else if place <= 23 {
        3
    } else {
        4
    }
}

/// The text of a UUID: 32 hexadecimal digits in groups of 8, 4, 4, 4 and 12, with hyphens
/// between the groups.
pub open spec fn hyphenated(id: Uuid) -> Seq<char> {
    Seq::new(
        36,
        |place: int|
            if place == 8 || place == 13 || place == 18 || place == 23 {
                '-'
            } else {
                hex_char(hex_digit(id, place - hyphens_before(place)))
            },
    )
}

/// `Display for uuid::Uuid`, reached through `to_string`: the hyphenated text in lower
/// case.  The UUID is built from its number, most significant digit first
/// (`uuid::Uuid::from_u128`).
#[verifier::external_body]
pub(crate) fn uuid_to_string(id: Uuid) -> (text: String)
    ensures
        text@ == hyphenated(id),
{
    ::uuid::Uuid::from_u128(id.0).to_string()
}

/// The first eight hexadecimal digits.
pub open spec fn short_id(id: Uuid) -> Seq<char> {
    Seq::new(8, |place: int| hex_char(hex_digit(id, place)))
}

} // verus!
