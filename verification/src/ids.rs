//! Entity ids: UUIDs, held as their 128 bits.
use vstd::prelude::*;

verus! {

/// A lowercase hex digit.
pub open spec fn hex_lower(d: nat) -> char {
    if d < 10 {
        ((d + 48) as u32) as char
    } else {
        ((d + 87) as u32) as char
    }
}

/// The last `n` hex digits of `x`, most significant first.
pub open spec fn hex_digits(x: nat, n: nat) -> Seq<char>
    decreases n,
{
    if n == 0 {
        Seq::empty()
    } else {
        hex_digits(x / 16, (n - 1) as nat).push(hex_lower(x % 16))
    }
}

/// The hyphenated lowercase text of a UUID: its 32 hex digits in groups of
/// 8, 4, 4, 4 and 12.
pub open spec fn uuid_text(id: u128) -> Seq<char> {
    let h = hex_digits(id as nat, 32);
    h.subrange(0, 8) + seq!['-'] + h.subrange(8, 12) + seq!['-'] + h.subrange(12, 16) + seq!['-']
        + h.subrange(16, 20) + seq!['-'] + h.subrange(20, 32)
}

/// The UUID a text spells in any of the formats the `uuid` crate reads
/// (simple, hyphenated, braced, urn), or `None`.
pub uninterp spec fn uuid_from_text(t: Seq<char>) -> Option<u128>;

/// `Uuid::to_string`: the hyphenated lowercase text of the UUID. The
/// crate's `parse_str` reads every format the crate writes, so it reads
/// this text back as the same UUID.
#[verifier::external_body]
pub(crate) fn format_uuid(id: u128) -> (s: String)
    ensures
        s@ == uuid_text(id),
        uuid_from_text(s@) == Some(id),
{
    uuid::Uuid::from_u128(id).to_string()
}

/// `Uuid::from_str`; the result is named.
#[verifier::external_body]
pub(crate) fn parse_uuid(text: &str) -> (r: Option<u128>)
    ensures
        r == uuid_from_text(text@),
{
    text.parse::<uuid::Uuid>().ok().map(|u| u.as_u128())
}

} // verus!
