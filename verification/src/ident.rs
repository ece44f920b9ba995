//! Invoice identifiers: 128-bit values, written as hyphenated UUID text.

use crate::signing::hex_text;
use uuid::Uuid;
use vstd::prelude::*;

verus! {

/// The sixteen bytes of an identifier, most significant first.
pub open spec fn id_bytes(id: u128) -> Seq<u8> {
    Seq::new(16, |k: int| ((id as int / vstd::arithmetic::power::pow(256, (15 - k) as nat)) % 256) as u8)
}

/// The text of an identifier: its bytes in lower-case hex, in groups of
/// 8, 4, 4, 4 and 12 digits with a hyphen between groups.
pub open spec fn id_text(id: u128) -> Seq<char> {
    let digits = hex_text(id_bytes(id));
    digits.subrange(0, 8) + seq!['-'] + digits.subrange(8, 12) + seq!['-'] + digits.subrange(
        12,
        16,
    ) + seq!['-'] + digits.subrange(16, 20) + seq!['-'] + digits.subrange(20, 32)
}

/// Whether an identifier is marked as a random one: its version digit is 4
/// and its two variant bits are `10`.
pub open spec fn is_random_id(id: u128) -> bool {
    id & 0x0000_0000_0000_f000_c000_0000_0000_0000 == 0x0000_0000_0000_4000_8000_0000_0000_0000
}

/// Draws a random version-4 identifier with `uuid::Uuid::new_v4` and returns
/// it as the 128-bit value of `Uuid::as_u128`. Each call may return any
/// identifier that carries the marks of a random one; which one is not said,
/// nor that it differs from those drawn before.
#[verifier::external_body]
pub(crate) fn fresh_id() -> (id: u128)
    ensures
        is_random_id(id),
{
    Uuid::new_v4().as_u128()
}

/// Writes an identifier the way `uuid::Uuid` displays itself: `Uuid::from_u128`
/// keeps the value's bytes big-endian, and the display form is the lower-case
/// hyphenated one.
#[verifier::external_body]
pub(crate) fn id_to_string(id: u128) -> (text: String)
    ensures
        text@ == id_text(id),
{
    Uuid::from_u128(id).to_string()
}

} // verus!
