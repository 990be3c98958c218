//! Profile identifiers: random version-4 UUIDs, held as their 128-bit value,
//! written in the lower-case hyphenated form `xxxxxxxx-xxxx-xxxx-xxxx-xxxxxxxxxxxx`.
use vstd::prelude::*;

verus! {

/// The lower-case hexadecimal digit of `n` (0 to 15).
pub open spec fn hex_digit(n: int) -> char {
    if n < 10 {
        (48 + n) as char
    } else {
        (87 + n) as char
    }
}

/// The `k`-th hexadecimal digit of `u`, counted from the most significant one.
pub open spec fn uuid_nibble(u: u128, k: int) -> int {
    ((u as int) / vstd::arithmetic::power2::pow2((4 * (31 - k)) as nat) as int) % 16
}

/// The digit index of the char at position `i` of the hyphenated form.
pub open spec fn uuid_digit_index(i: int) -> int {
    if i < 8 {
        i
    } else if i < 13 {
        i - 1
    } else if i < 18 {
        i - 2
    } else if i < 23 {
        i - 3
    } else {
        i - 4
    }
}

/// The hyphenated lower-case text of the UUID whose value is `u`: 32 digits,
/// most significant first, with hyphens after the 8th, 12th, 16th and 20th.
pub open spec fn uuid_text(u: u128) -> Seq<char> {
    Seq::new(
        36,
        |i: int|
            if i == 8 || i == 13 || i == 18 || i == 23 {
                '-'
            } else {
                hex_digit(uuid_nibble(u, uuid_digit_index(i)))
            },
    )
}

/// The bits that mark a version-4, RFC 4122 variant UUID.
pub const V4_MASK: u128 = 0xF000_C000_0000_0000_0000;

/// Their values in such a UUID.
pub const V4_BITS: u128 = 0x4000_8000_0000_0000_0000;

/// What `Uuid::parse_str` gives for a text, as a 128-bit value.
pub uninterp spec fn uuid_parse(s: Seq<char>) -> Option<u128>;

/// `uuid::Uuid::new_v4`: a random UUID whose version bits are 4 and whose
/// variant bits are those of RFC 4122; the other 122 bits are random, and
/// nothing is claimed of them.
#[verifier::external_body]
pub(crate) fn new_v4_uuid() -> (r: u128)
    ensures
        r & V4_MASK == V4_BITS,
{
    uuid::Uuid::new_v4().as_u128()
}

/// `uuid::Uuid::to_string` (its `Display`): the hyphenated lower-case text of
/// the UUID, digits in big-endian order.
#[verifier::external_body]
pub(crate) fn uuid_to_string(u: u128) -> (r: String)
    ensures
        r@ == uuid_text(u),
{
    uuid::Uuid::from_u128(u).to_string()
}

/// `uuid::Uuid::parse_str`: the value of the UUID that the text denotes, or
/// `None` when it denotes none. Its result on most texts is only named; the
/// hyphenated text of any UUID gives that UUID back.
#[verifier::external_body]
pub(crate) fn parse_uuid(s: &str) -> (r: Option<u128>)
    ensures
        r == uuid_parse(s@),
        forall|u: u128| s@ == uuid_text(u) ==> r == Some(u),
{
    match uuid::Uuid::parse_str(s) {
        Ok(u) => Some(u.as_u128()),
        Err(_) => None,
    }
}

} // verus!
