//! Identifiers of comparisons.

use vstd::prelude::*;

verus! {

/// The length of an identifier.
pub const IDENTIFIER_LENGTH: usize = 36;

/// A digit of lower-case hexadecimal.
pub open spec fn is_hex_digit(c: char) -> bool {
    ('0' as u32 <= c as u32 <= '9' as u32) || ('a' as u32 <= c as u32 <= 'f' as u32)
}

/// Whether a position of an identifier holds a hyphen.
pub open spec fn is_hyphen_position(i: int) -> bool {
    i == 8 || i == 13 || i == 18 || i == 23
}

/// The shape of a minted identifier: thirty-two hexadecimal digits in groups of
/// eight, four, four, four and twelve, with a hyphen between two groups.
pub open spec fn is_identifier(id: Seq<char>) -> bool {
    &&& id.len() == IDENTIFIER_LENGTH
    &&& forall|i: int|
        0 <= i < id.len() ==> if is_hyphen_position(i) {
            #[trigger] id[i] == '-'
        } else {
            is_hex_digit(id[i])
        }
}

/// Mints an identifier from 122 random bits. Calls `Uuid::new_v4` of the uuid
/// crate and writes the result with `to_string`, which gives the hyphenated
/// lower-case form. Assumed, not proved: the shape of that form. Which identifier
/// comes back is left open; that it differs from the ones minted before is a
/// matter of chance and no part of the contract. The call panics where the
/// operating system hands out no random bytes.
#[verifier::external_body]
pub(crate) fn new_identifier() -> (id: String)
    ensures
        is_identifier(id@),
{
    uuid::Uuid::new_v4().to_string()
}

} // verus!
