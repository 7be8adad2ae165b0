//! Row identifiers: 128-bit values, written as hyphenated lower-case
//! hexadecimal.

use vstd::arithmetic::power::pow;
use vstd::prelude::*;

verus! {

/// The character for a hexadecimal digit between 0 and 15.
pub open spec fn hex_char(digit: int) -> char {
    seq!['0', '1', '2', '3', '4', '5', '6', '7', '8', '9', 'a', 'b', 'c', 'd', 'e', 'f'][digit]
}

/// The hexadecimal digit of `id` at `index`, counted from the most
/// significant of its 32 digits.
pub open spec fn hex_digit(id: u128, index: int) -> int {
    (id as int / pow(16, (31 - index) as nat)) % 16
}

/// Whether the hyphenated form has a hyphen at `position`.
pub open spec fn is_hyphen_position(position: int) -> bool {
    position == 8 || position == 13 || position == 18 || position == 23
}

/// How many hyphens the hyphenated form has before `position`.
pub open spec fn hyphens_before(position: int) -> int {
    if position < 8 {
        0
    } else if position < 13 {
        1
    } else if position < 18 {
        2
    } else if position < 23 {
        3
    } else {
        4
    }
}

/// The hyphenated form of `id`: its 32 hexadecimal digits in lower case, in
/// groups of 8, 4, 4, 4 and 12 with a hyphen between them.
pub open spec fn hyphenated(id: u128) -> Seq<char> {
    Seq::new(
        36,
        |position: int|
            if is_hyphen_position(position) {
                '-'
            } else {
                hex_char(hex_digit(id, position - hyphens_before(position)))
            },
    )
}

/// Formats `id` with `Uuid::from_u128` and the `Display` of `Uuid`.
///
/// `from_u128` keeps the value's bytes, most significant first, and `Display`
/// writes them as lower-case hexadecimal with hyphens after the 4th, 6th, 8th
/// and 10th byte.
#[verifier::external_body]
pub(crate) fn id_text(id: u128) -> (r: String)
    ensures
        r@ == hyphenated(id),
{
    uuid::Uuid::from_u128(id).to_string()
}

} // verus!
