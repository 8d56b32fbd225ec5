//! Identifiers drawn from outside sources: UUIDs and random snapshot ids.

use vstd::prelude::*;

verus! {

/// The 128-bit value of the UUID written in `s`, if `s` is a UUID in one of
/// the forms that the uuid crate reads.
pub uninterp spec fn uuid_from_text(s: Seq<char>) -> Option<u128>;

/// The lower-case hex digit for `d < 16`.
pub open spec fn hex_digit(d: nat) -> char {
    if d == 0 { '0' } else if d == 1 { '1' } else if d == 2 { '2' } else if d == 3 { '3' }
    else if d == 4 { '4' } else if d == 5 { '5' } else if d == 6 { '6' } else if d == 7 { '7' }
    else if d == 8 { '8' } else if d == 9 { '9' } else if d == 10 { 'a' } else if d == 11 { 'b' }
    else if d == 12 { 'c' } else if d == 13 { 'd' } else if d == 14 { 'e' } else { 'f' }
}

/// The lowest `n` hex digits of `u`, most significant first.
pub open spec fn hex_digits(u: nat, n: nat) -> Seq<char>
    decreases n,
{
    if n == 0 { Seq::<char>::empty() } else { hex_digits(u / 16, (n - 1) as nat).push(hex_digit(u % 16)) }
}

/// The lower-case hyphenated text of the UUID with value `u`: its 32 hex
/// digits, most significant first, with a hyphen after the 8th, 12th, 16th
/// and 20th.
pub open spec fn uuid_text(u: u128) -> Seq<char> {
    let h = hex_digits(u as nat, 32);
    h.subrange(0, 8) + seq!['-'] + h.subrange(8, 12) + seq!['-'] + h.subrange(12, 16) + seq!['-']
        + h.subrange(16, 20) + seq!['-'] + h.subrange(20, 32)
}

/// Relies on `uuid::Uuid::parse_str`: the result depends on the text alone.
#[verifier::external_body]
pub(crate) fn parse_uuid(s: &str) -> (r: Option<u128>)
    ensures
        r == uuid_from_text(s@),
{
    uuid::Uuid::parse_str(s).ok().map(|u| u.as_u128())
}

/// Relies on `uuid::Uuid::from_u128`, which takes the value's bytes most
/// significant first, and on `Uuid`'s `Display`, which writes them as
/// lower-case hex in the hyphenated form.
#[verifier::external_body]
pub(crate) fn format_uuid(u: u128) -> (r: String)
    ensures
        r@ == uuid_text(u),
        r@.len() == 36,
{
    uuid::Uuid::from_u128(u).to_string()
}

/// Relies on `getrandom::getrandom` for sixteen random bytes and on
/// `uuid::Builder::from_random_bytes` to make them a version 4 UUID; `None`
/// when the system source fails. Nothing is known of the value.
#[verifier::external_body]
pub(crate) fn random_uuid() -> (r: Option<u128>) {
    let mut bytes = [0u8; 16];
    getrandom::getrandom(&mut bytes).ok().map(|_| uuid::Builder::from_random_bytes(bytes).into_uuid().as_u128())
}

/// Relies on `getrandom::getrandom`: eight random bytes read as a
/// little-endian integer, or `None` when the system source fails.
#[verifier::external_body]
pub(crate) fn random_i64() -> (r: Option<i64>) {
    let mut bytes = [0u8; 8];
    getrandom::getrandom(&mut bytes).ok().map(|_| i64::from_le_bytes(bytes))
}

} // verus!
