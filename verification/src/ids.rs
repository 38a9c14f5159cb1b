//! UUIDs, held as their 128-bit values, through the `uuid` crate.
use vstd::prelude::*;
use vstd::arithmetic::power::pow;

verus! {

/// What `uuid::Uuid::parse_str(s)` gives for `s`, as the UUID's 128-bit
/// value (`None` where the crate reports an error).
pub uninterp spec fn uuid_parsed(s: Seq<char>) -> Option<u128>;

/// The lower-case hexadecimal digit of a value below 16.
pub open spec fn hex_digit_lower(v: int) -> char {
    if v < 10 {
        (v + 48) as char
    } else {
        (v + 87) as char
    }
}

/// The `i`-th of the 32 hexadecimal digits of `u`, the most significant
/// first.
pub open spec fn uuid_nibble(u: u128, i: int) -> int {
    (u as int / pow(16, (31 - i) as nat)) % 16
}

/// The 32 lower-case hexadecimal digits of `u`, the most significant first.
pub open spec fn uuid_hex(u: u128) -> Seq<char> {
    Seq::new(32, |i: int| hex_digit_lower(uuid_nibble(u, i)))
}

/// What `uuid::Uuid::from_u128(u).to_string()` gives: the hyphenated
/// lower-case form, the hexadecimal digits of `u` (its big-endian bytes) in
/// groups of 8, 4, 4, 4 and 12 joined by `-`.
#[verifier::opaque]
pub open spec fn uuid_text(u: u128) -> Seq<char> {
    let h = uuid_hex(u);
    h.subrange(0, 8) + seq!['-'] + h.subrange(8, 12) + seq!['-'] + h.subrange(12, 16) + seq!['-']
        + h.subrange(16, 20) + seq!['-'] + h.subrange(20, 32)
}

/// Calls `uuid::Uuid::parse_str`; the contract names the result.
#[verifier::external_body]
pub(crate) fn parse_uuid(s: &str) -> (r: Option<u128>)
    ensures
        r == uuid_parsed(s@),
{
    match uuid::Uuid::parse_str(s) {
        Ok(u) => Some(u.as_u128()),
        Err(_) => None,
    }
}

/// Calls `Uuid::to_string` on the UUID with value `u`: the contract states
/// the hyphenated lower-case form that the crate's `format_hyphenated`
/// writes, and claims what the crate documents of it: `parse_str` reads it
/// back.
#[verifier::external_body]
pub(crate) fn uuid_to_string(u: u128) -> (r: String)
    ensures
        r@ == uuid_text(u),
        uuid_parsed(r@) == Some(u),
{
    uuid::Uuid::from_u128(u).to_string()
}

/// Calls `uuid::Uuid::new_v4`: a random UUID, of which nothing is claimed.
#[verifier::external_body]
pub(crate) fn new_uuid_v4() -> (r: u128) {
    uuid::Uuid::new_v4().as_u128()
}

} // verus!
