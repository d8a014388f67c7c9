//! How identifiers and timestamps are written in pages (the `uuid` and
//! `chrono` crates).
use vstd::prelude::*;

verus! {

/// `16^e`.
pub open spec fn pow16(e: nat) -> nat
    decreases e,
{
    if e == 0 {
        1
    } else {
        16 * pow16((e - 1) as nat)
    }
}

/// The lower-case hexadecimal digit for `d` in `0..16`.
pub open spec fn hex_digit_lower(d: int) -> char {
    if d < 10 {
        (d + 48) as char
    } else {
        (d + 87) as char
    }
}

/// Hex digit `k` (0 the most significant) of the 32-digit form of `id`.
pub open spec fn uuid_hex(id: u128, k: int) -> char {
    hex_digit_lower(((id as int) / (pow16((31 - k) as nat) as int)) % 16)
}

/// How many of the four hyphens come before position `p` of the hyphenated form.
pub open spec fn hyphens_before(p: int) -> int {
    if p > 23 {
        4
    } else if p > 18 {
        3
    } else if p > 13 {
        2
    } else if p > 8 {
        1
    } else {
        0
    }
}

/// The hyphenated lower-case form of a UUID: its 32 hex digits, most
/// significant first, in groups of 8-4-4-4-12 joined by `-`.
pub open spec fn uuid_hyphenated(id: u128) -> Seq<char> {
    Seq::new(
        36,
        |p: int|
            if p == 8 || p == 13 || p == 18 || p == 23 {
                '-'
            } else {
                uuid_hex(id, p - hyphens_before(p))
            },
    )
}

/// Writes the UUID whose 128-bit value is `id` (`Uuid::from_u128`, big-endian)
/// the way its `Display` does: hyphenated, lower case, as the uuid crate documents.
#[verifier::external_body]
pub(crate) fn uuid_text(id: u128) -> (r: String)
    ensures
        r@ == uuid_hyphenated(id),
{
    uuid::Uuid::from_u128(id).to_string()
}

/// The date (`%Y-%m-%d`) that `chrono` writes for the UTC instant `micros`
/// microseconds after the Unix epoch (empty for an instant outside chrono's range).
pub uninterp spec fn utc_date_text(micros: int) -> Seq<char>;

/// The date and time (`%Y-%m-%d %H:%M`) that `chrono` writes for the UTC instant
/// `micros` microseconds after the Unix epoch (empty for an instant outside
/// chrono's range).
pub uninterp spec fn utc_date_time_text(micros: int) -> Seq<char>;

/// Writes an instant as a date: `DateTime::from_timestamp_micros`, then
/// `format("%Y-%m-%d")` (a pattern of specifiers chrono knows, so writing it
/// cannot fail); empty for an instant outside chrono's range. The text is named,
/// not stated.
#[verifier::external_body]
pub(crate) fn format_date(micros: i64) -> (r: String)
    ensures
        r@ == utc_date_text(micros as int),
{
    match chrono::DateTime::from_timestamp_micros(micros) {
        Some(t) => t.format("%Y-%m-%d").to_string(),
        None => String::new(),
    }
}

/// Writes an instant as a date and time: `DateTime::from_timestamp_micros`, then
/// `format("%Y-%m-%d %H:%M")` (a pattern of specifiers chrono knows, so writing it
/// cannot fail); empty for an instant outside chrono's range. The text is named,
/// not stated.
#[verifier::external_body]
pub(crate) fn format_date_time(micros: i64) -> (r: String)
    ensures
        r@ == utc_date_time_text(micros as int),
{
    match chrono::DateTime::from_timestamp_micros(micros) {
        Some(t) => t.format("%Y-%m-%d %H:%M").to_string(),
        None => String::new(),
    }
}

} // verus!
