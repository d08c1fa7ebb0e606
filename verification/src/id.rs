//! Machine and device identifiers: 128-bit values, written as hyphenated UUIDs.

use uuid::Uuid;
use vstd::arithmetic::power::pow;
use vstd::prelude::*;

verus! {

pub type MachineId = u128;

pub type DeviceId = u128;

/// The lower-case hexadecimal digit for a value below sixteen.
pub open spec fn hex_digit(n: int) -> char {
    if n < 10 {
        (48 + n) as char
    } else {
        (87 + n) as char
    }
}

/// The `k`-th group of four bits of `id`, counted from the most significant.
pub open spec fn nibble(id: u128, k: int) -> int {
    (id as int / pow(16, (31 - k) as nat)) % 16
}

/// How many hyphens stand before position `p` of a hyphenated identifier.
pub open spec fn hyphens_before(p: int) -> int {
    if p < 8 {
        0
    } else if p < 13 {
        1
    } else if p < 18 {
        2
    } else if p < 23 {
        3
    } else {
        4
    }
}

/// The character at position `p` of the hyphenated form of `id`.
pub open spec fn id_text_char(id: u128, p: int) -> char {
    if p == 8 || p == 13 || p == 18 || p == 23 {
        '-'
    } else {
        hex_digit(nibble(id, p - hyphens_before(p)))
    }
}

/// The hyphenated form of an identifier: 36 characters, thirty-two lower-case
/// hexadecimal digits, most significant first, in groups of 8, 4, 4, 4 and 12.
pub open spec fn id_text(id: u128) -> Seq<char> {
    Seq::new(36, |p: int| id_text_char(id, p))
}

/// The identifier that `Uuid::parse_str` reads from a text, if it reads one.
pub uninterp spec fn parsed_id(text: Seq<char>) -> Option<u128>;

/// Calls `Uuid::new_v4`, which draws a random version 4 UUID from the operating
/// system's generator, and takes its 128 bits. Nothing is claimed of the value.
/// The call panics if the system hands out no random bytes.
#[verifier::external_body]
pub(crate) fn random_id() -> u128 {
    Uuid::new_v4().as_u128()
}

/// Calls `Uuid::to_string` on the UUID with the bits of `id`. The crate formats a
/// UUID with `Hyphenated::encode_lower`: two lower-case digits for each byte, most
/// significant byte first, and a hyphen after the bytes 4, 6, 8 and 10.
#[verifier::external_body]
pub(crate) fn hyphenated(id: u128) -> (text: String)
    ensures
        text@ == id_text(id),
{
    Uuid::from_u128(id).to_string()
}

/// Calls `Uuid::parse_str`, which accepts the simple, the hyphenated and the URN
/// form, and takes the 128 bits of what it read. The result depends on the text
/// alone.
#[verifier::external_body]
pub(crate) fn parse_id(text: &str) -> (id: Option<u128>)
    ensures
        id == parsed_id(text@),
{
    match Uuid::parse_str(text) {
        Ok(uuid) => Some(uuid.as_u128()),
        Err(_) => None,
    }
}

/// The name under which a machine or device is written: its hyphenated UUID.
pub fn id_to_string(id: u128) -> (text: String)
    ensures
        text@ == id_text(id),
        text@.len() == 36,
{
    hyphenated(id)
}

/// Reads an identifier from a text. `None` where the text is no UUID.
pub fn id_from_str(text: &str) -> (id: Option<u128>)
    ensures
        id == parsed_id(text@),
{
    parse_id(text)
}

} // verus!
