//! Identifiers and clock readings, taken from the `uuid` and `chrono` crates.
//!
//! Identifiers are carried as the 128-bit value of a UUID; instants as
//! milliseconds since the Unix epoch (UTC).

use vstd::prelude::*;
use vstd::arithmetic::power::pow;

verus! {

/// A fresh random identifier: `uuid::Uuid::new_v4().as_u128()`.  The
/// contract states only what every version-4 UUID satisfies (its version
/// field is 4); the remaining bits are random.
#[verifier::external_body]
pub(crate) fn new_id() -> (id: u128)
    ensures
        (id >> 76u128) & 0xfu128 == 4,
{
    uuid::Uuid::new_v4().as_u128()
}

/// A lower-case hexadecimal digit.
pub open spec fn hex_lower(d: nat) -> char {
    if d < 10 {
        (('0' as int) + d) as char
    } else {
        (('a' as int) + d - 10) as char
    }
}

/// The `k`-th hexadecimal digit of `id`, the most significant first.
pub open spec fn uuid_nibble(id: u128, k: int) -> nat {
    ((id as nat) / pow(16, (31 - k) as nat) as nat) % 16
}

/// Which hexadecimal digit stands at position `i` of the hyphenated text.
pub open spec fn uuid_digit_index(i: int) -> int {
    if i < 8 {
        i
    } else if i < 13 {
        i - 1
    } else if i < 18 {
        i - 2
    } else if i < 23 {
        i - 3
    } else {
        i - 4
    }
}

/// The hyphenated lower-case text of a UUID (`Uuid::to_string`): its 32
/// hexadecimal digits, most significant first, in groups of 8, 4, 4, 4
/// and 12 joined by `-`.
pub open spec fn uuid_text(id: u128) -> Seq<char> {
    Seq::new(
        36,
        |i: int|
            if i == 8 || i == 13 || i == 18 || i == 23 {
                '-'
            } else {
                hex_lower(uuid_nibble(id, uuid_digit_index(i)))
            },
    )
}

/// `uuid::Uuid::from_u128(id).to_string()`: `from_u128` takes the value's
/// bytes most significant first, and `Display` writes the hyphenated
/// lower-case form, `uuid_text`.
#[verifier::external_body]
pub(crate) fn id_text(id: u128) -> (r: String)
    ensures
        r@ == uuid_text(id),
{
    uuid::Uuid::from_u128(id).to_string()
}

/// What `uuid::Uuid::parse_str` gives for a text, as a 128-bit value.
pub uninterp spec fn uuid_parse(s: Seq<char>) -> Option<u128>;

/// `uuid::Uuid::parse_str(s).ok()`, as a 128-bit value; the result is
/// named `uuid_parse`.
#[verifier::external_body]
pub(crate) fn parse_id(s: &str) -> (r: Option<u128>)
    ensures
        r == uuid_parse(s@),
{
    uuid::Uuid::parse_str(s).ok().map(|u| u.as_u128())
}

/// The first millisecond of chrono's range of UTC instants, January 1 of
/// 262144 BCE (`DateTime::<Utc>::MIN_UTC`).
pub const MIN_UTC_MS: i64 = -8_334_601_228_800_000;

/// The last millisecond of chrono's range of UTC instants, December 31 of
/// 262142 CE (`DateTime::<Utc>::MAX_UTC`).
pub const MAX_UTC_MS: i64 = 8_210_266_876_799_999;

/// The current UTC time in milliseconds since the Unix epoch
/// (`chrono::Utc::now().timestamp_millis()`). `Utc::now` panics on a
/// clock set before 1970 and unwraps an instant in chrono's range, so
/// what it returns lies between the epoch and the end of that range;
/// which instant it is, is not stated.
#[verifier::external_body]
pub(crate) fn now_millis() -> (t: i64)
    ensures
        0 <= t <= MAX_UTC_MS,
{
    chrono::Utc::now().timestamp_millis()
}

/// The current UTC time in whole seconds since the Unix epoch
/// (`chrono::Utc::now().timestamp()`); nothing is promised of it.
#[verifier::external_body]
pub(crate) fn now_seconds() -> (t: i64) {
    chrono::Utc::now().timestamp()
}

/// The current UTC time in RFC 3339 form
/// (`chrono::Utc::now().to_rfc3339()`); nothing is promised of it.
#[verifier::external_body]
pub(crate) fn now_rfc3339() -> (t: String) {
    chrono::Utc::now().to_rfc3339()
}

/// The layout `%Y%m%d_%H%M%S` of chrono: the year, zero-padded to at least
/// four digits (with a sign outside years 0 to 9999), then month, day, an
/// underscore, hour, minute and second, two digits each.
pub open spec fn compact_layout(t: Seq<char>) -> bool {
    let n = t.len();
    n >= 15 && t[n - 7] == '_' && (forall|i: int|
        n - 15 <= i < n && i != n - 7 ==> '0' <= #[trigger] t[i] <= '9')
}

/// The current UTC time in the layout `%Y%m%d_%H%M%S`
/// (`chrono::Utc::now().format(..)`): which instant is not stated, only
/// the layout, which chrono documents for every year it can hold.
#[verifier::external_body]
pub(crate) fn now_compact() -> (t: String)
    ensures
        compact_layout(t@),
{
    chrono::Utc::now().format("%Y%m%d_%H%M%S").to_string()
}

/// The `Display` text of the UTC instant `ms` milliseconds after the epoch
/// (`chrono::DateTime<Utc>`), or `None` outside chrono's range.
pub uninterp spec fn utc_text(ms: i64) -> Option<Seq<char>>;

/// `DateTime::from_timestamp_millis(ms).map(|t| t.to_string())`; the
/// result is named `utc_text`, and it is there exactly for the instants
/// of chrono's range.
#[verifier::external_body]
pub(crate) fn utc_display(ms: i64) -> (r: Option<String>)
    ensures
        match r {
            Some(s) => utc_text(ms) == Some(s@),
            None => utc_text(ms) is None,
        },
        r is Some <==> MIN_UTC_MS <= ms <= MAX_UTC_MS,
{
    chrono::DateTime::from_timestamp_millis(ms).map(|t| t.to_string())
}

} // verus!
