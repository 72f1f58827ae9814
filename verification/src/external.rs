//! Calls into outside crates (uuid, chrono, std) that the client logic relies on.
use vstd::prelude::*;

verus! {

/// The lower-case hexadecimal digit of `d` (below 16).
pub open spec fn hex_lower(d: int) -> char {
    if d < 10 {
        (48 + d) as char
    } else {
        (87 + d) as char
    }
}

/// The `k`-th of the 32 hexadecimal digits of `id`, most significant first.
pub open spec fn nibble(id: u128, k: int) -> int {
    (id as int / vstd::arithmetic::power::pow(16, (31 - k) as nat)) % 16
}

/// The hyphenated form that `uuid::Uuid::from_u128(id).to_string()` writes: the 32
/// lower-case hexadecimal digits of `id` in groups of 8, 4, 4, 4 and 12, joined by `-`.
#[verifier::opaque]
pub open spec fn uuid_text(id: u128) -> Seq<char> {
    Seq::new(
        36,
        |p: int|
            if p == 8 || p == 13 || p == 18 || p == 23 {
                '-'
            } else {
                let k = if p < 8 {
                    p
                } else if p < 13 {
                    p - 1
                } else if p < 18 {
                    p - 2
                } else if p < 23 {
                    p - 3
                } else {
                    p - 4
                };
                hex_lower(nibble(id, k))
            },
    )
}

/// Calls `uuid::Uuid::new_v4`: a fresh random identifier, as its 128-bit value.
/// Nothing is stated of the result: it is random.
#[verifier::external_body]
pub fn new_uuid() -> u128 {
    uuid::Uuid::new_v4().as_u128()
}

/// Calls `uuid::Uuid::to_string` on `Uuid::from_u128(id)`: its hyphenated lower-case form,
/// `uuid_text(id)`.
#[verifier::external_body]
pub fn uuid_to_string(id: u128) -> (res: String)
    ensures
        res@ == uuid_text(id),
{
    uuid::Uuid::from_u128(id).to_string()
}

/// Calls `chrono::Utc::now().timestamp()`: the wall-clock time in seconds since the Unix
/// epoch. `Utc::now` panics on a clock set before the epoch, so a result is never
/// negative; nothing more is stated: it depends on the clock.
#[verifier::external_body]
pub fn now_secs() -> (r: i64)
    ensures
        r >= 0,
{
    chrono::Utc::now().timestamp()
}

/// Calls `chrono::Utc::now().timestamp_millis()`: the wall-clock time in milliseconds
/// since the Unix epoch, never negative (as for `now_secs`); nothing more is stated.
#[verifier::external_body]
pub fn now_millis() -> (r: i64)
    ensures
        r >= 0,
{
    chrono::Utc::now().timestamp_millis()
}

/// What `uuid::Uuid::parse_str` gives for a text: the UUID's 128-bit value, or nothing
/// when the text is not a UUID.
pub uninterp spec fn parsed_uuid(s: Seq<char>) -> Option<u128>;

/// Calls `uuid::Uuid::parse_str`; its result is named `parsed_uuid`.
#[verifier::external_body]
pub fn parse_uuid(s: &str) -> (r: Option<u128>)
    ensures
        r == parsed_uuid(s@),
{
    match uuid::Uuid::parse_str(s) {
        Ok(u) => Some(u.as_u128()),
        Err(_) => None,
    }
}

} // verus!
