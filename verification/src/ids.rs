//! Session and message identifiers: 128-bit values with the UUID text forms.

use vstd::prelude::*;

verus! {

#[verifier::external_type_specification]
#[verifier::external_body]
pub struct ExUuidError(uuid::Error);

/// The identifier that a text denotes in any of the accepted UUID forms
/// (simple, hyphenated, braced, URN), or `None` for any other text.
pub uninterp spec fn uuid_parse(text: Seq<char>) -> Option<u128>;

/// The sixteen lower-case hexadecimal digits.
pub open spec fn hex_digits() -> Seq<char> {
    seq!['0', '1', '2', '3', '4', '5', '6', '7', '8', '9', 'a', 'b', 'c', 'd', 'e', 'f']
}

/// 16 to the power `k`.
pub open spec fn pow16(k: nat) -> nat
    decreases k,
{
    if k == 0 {
        1
    } else {
        16 * pow16((k - 1) as nat)
    }
}

/// Hexadecimal digit `k` of `id`, counted from the most significant (0) to
/// the least significant (31).
pub open spec fn nibble(id: u128, k: int) -> int
    recommends
        0 <= k < 32,
{
    (id as int / pow16((31 - k) as nat) as int) % 16
}

/// Number of hyphens that precede position `pos` of the hyphenated form.
pub open spec fn hyphens_before(pos: int) -> int {
    if pos < 8 {
        0
    } else if pos < 13 {
        1
    } else if pos < 18 {
        2
    } else if pos < 23 {
        3
    } else {
        4
    }
}

/// The hyphenated lower-case form of an identifier: 32 hexadecimal digits
/// in groups of 8, 4, 4, 4 and 12.
pub open spec fn uuid_text(id: u128) -> Seq<char> {
    Seq::new(
        36,
        |pos: int|
            if pos == 8 || pos == 13 || pos == 18 || pos == 23 {
                '-'
            } else {
                hex_digits()[nibble(id, pos - hyphens_before(pos))]
            },
    )
}

/// Calls `uuid::Uuid::parse_str` and hands back the identifier as its
/// 128-bit value (`Uuid::as_u128`). The result is `Ok` exactly on the texts
/// that `uuid_parse` accepts, with the value it names.
#[verifier::external_body]
pub(crate) fn parse_uuid(text: &str) -> (r: Result<u128, uuid::Error>)
    ensures
        r is Ok <==> uuid_parse(text@) is Some,
        r matches Ok(id) ==> uuid_parse(text@) == Some(id),
{
    match uuid::Uuid::parse_str(text) {
        Ok(id) => Ok(id.as_u128()),
        Err(e) => Err(e),
    }
}

/// Formats through `Display` of `uuid::Uuid`, which writes the hyphenated
/// lower-case form. `Uuid::parse_str` reads every form the crate writes,
/// so the text is read back as the identifier it was written for.
#[verifier::external_body]
pub(crate) fn format_uuid(id: u128) -> (r: String)
    ensures
        r@ == uuid_text(id),
        uuid_parse(r@) == Some(id),
{
    uuid::Uuid::from_u128(id).to_string()
}

/// An identifier is marked as drawn at random: its version digit is 4 and
/// the two highest bits of its variant digit are 1 and 0.
pub open spec fn is_random_uuid(id: u128) -> bool {
    id & 0xF000_C000_0000_0000_0000u128 == 0x4000_8000_0000_0000_0000u128
}

/// Calls `uuid::Uuid::new_v4`, which draws 128 bits from the system's
/// random source and sets the version and variant bits over them. Which
/// identifier it is depends on chance; whichever it is, it carries those
/// marks. `new_v4` panics where the system gives no random bytes.
#[verifier::external_body]
pub(crate) fn random_uuid() -> (id: u128)
    ensures
        is_random_uuid(id),
{
    uuid::Uuid::new_v4().as_u128()
}

} // verus!
