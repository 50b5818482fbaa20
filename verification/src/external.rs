//! Calls into outside crates: the clock (chrono), random identifiers
//! (uuid) and percent-encoding (urlencoding). Each contract here is believed,
//! not proved; it states what the crate's source shows of the call.

use vstd::prelude::*;

use crate::domain::UtcTimestamp;
use vstd::string::StringSliceAdditionalSpecFns;

verus! {

/// Timestamps (in seconds) below this bound cover every instant chrono can
/// represent: its years end at 262142.
pub const TIMESTAMP_SECS_BOUND: i64 = 0x1000_0000_0000;

/// The current instant: `chrono::Utc::now()`, taken apart into seconds since
/// the epoch and nanoseconds past that second. chrono reads the system clock
/// as a duration since the Unix epoch (refusing an earlier clock), so the
/// seconds are not negative and the nanoseconds are those of a `Duration`,
/// below one second; the instant lies in chrono's range. Which instant comes
/// back is the clock's.
#[verifier::external_body]
pub fn utc_now() -> (t: UtcTimestamp)
    ensures
        0 <= t.secs < TIMESTAMP_SECS_BOUND,
        t.nanos < 1_000_000_000,
{
    let now = chrono::Utc::now();
    UtcTimestamp { secs: now.timestamp(), nanos: now.timestamp_subsec_nanos() }
}

/// A lower-case hexadecimal digit.
pub open spec fn is_lower_hex_digit(c: char) -> bool {
    ('0' <= c && c <= '9') || ('a' <= c && c <= 'f')
}

/// The hyphenated lower-case text of a random (version 4, RFC 4122 variant)
/// UUID: 36 characters, hyphens at 8, 13, 18 and 23, hex digits elsewhere,
/// the version digit `4` at 14 and one of `8`, `9`, `a`, `b` at 19.
pub open spec fn is_uuid_v4_text(s: Seq<char>) -> bool {
    &&& s.len() == 36
    &&& forall|i: int|
        0 <= i < 36 ==> if i == 8 || i == 13 || i == 18 || i == 23 {
            #[trigger] s[i] == '-'
        } else {
            is_lower_hex_digit(s[i])
        }
    &&& s[14] == '4'
    &&& (s[19] == '8' || s[19] == '9' || s[19] == 'a' || s[19] == 'b')
}

/// A fresh random identifier: `uuid::Uuid::new_v4().to_string()`. The crate
/// masks a random 128-bit value to version 4 and the RFC 4122 variant, and
/// displays it hyphenated in lower case. Which identifier comes back is
/// chance's.
#[verifier::external_body]
pub fn new_uuid_v4() -> (s: String)
    ensures
        is_uuid_v4_text(s@),
{
    uuid::Uuid::new_v4().to_string()
}

/// The bytes `urlencoding` leaves as they are: ASCII letters and digits and
/// `-`, `.`, `_`, `~`.
pub open spec fn is_unreserved_byte(b: u8) -> bool {
    ||| (48 <= b && b <= 57)
    ||| (65 <= b && b <= 90)
    ||| (97 <= b && b <= 122)
    ||| b == 45
    ||| b == 46
    ||| b == 95
    ||| b == 126
}

/// An upper-case hexadecimal digit for a value below 16.
pub open spec fn hex_upper(d: int) -> char {
    if d < 10 {
        (48 + d) as char
    } else {
        (55 + d) as char
    }
}

/// The percent-encoding of a byte sequence: unreserved bytes as they are,
/// every other byte as `%` and two upper-case hex digits.
pub open spec fn url_encoded(bytes: Seq<u8>) -> Seq<char>
    decreases bytes.len(),
{
    if bytes.len() == 0 {
        Seq::empty()
    } else {
        let b = bytes.last();
        url_encoded(bytes.drop_last()) + if is_unreserved_byte(b) {
            seq![b as char]
        } else {
            seq!['%', hex_upper(b as int / 16), hex_upper(b as int % 16)]
        }
    }
}

/// `urlencoding::encode`: percent-encodes every UTF-8 byte of `s` except
/// ASCII letters, digits and `-`, `.`, `_`, `~`, with upper-case hex digits.
#[verifier::external_body]
pub fn url_encode(s: &str) -> (r: String)
    ensures
        r@ == url_encoded(s.spec_bytes()),
{
    urlencoding::encode(s).into_owned()
}

/// The instant chrono reads from an RFC 3339 text (the offset applied),
/// where it reads one; a function of the text alone.
pub uninterp spec fn rfc3339_instant(text: Seq<char>) -> Option<UtcTimestamp>;

/// The RFC 3339 text chrono writes for the UTC instant `secs`/`nanos`,
/// where that instant is one chrono represents; a function of the instant
/// alone.
pub uninterp spec fn rfc3339_text(secs: i64, nanos: u32) -> Option<Seq<char>>;

/// `chrono::DateTime::parse_from_rfc3339`, taken apart into seconds since
/// the epoch and nanoseconds past that second; `None` where chrono rejects
/// the text. What it reads is named, not stated.
#[verifier::external_body]
pub fn parse_rfc3339(text: &str) -> (r: Option<UtcTimestamp>)
    ensures
        r == rfc3339_instant(text@),
{
    match chrono::DateTime::parse_from_rfc3339(text) {
        Ok(t) => Some(UtcTimestamp { secs: t.timestamp(), nanos: t.timestamp_subsec_nanos() }),
        Err(_) => None,
    }
}

/// `chrono::DateTime::<Utc>::from_timestamp` followed by `to_rfc3339`:
/// the RFC 3339 text of the instant, `None` where chrono has no such
/// instant. What it writes is named, not stated.
#[verifier::external_body]
pub fn format_rfc3339(t: UtcTimestamp) -> (r: Option<String>)
    ensures
        match r {
            Some(s) => rfc3339_text(t.secs, t.nanos) == Some(s@),
            None => rfc3339_text(t.secs, t.nanos) is None,
        },
{
    match chrono::DateTime::<chrono::Utc>::from_timestamp(t.secs, t.nanos) {
        Some(d) => Some(d.to_rfc3339()),
        None => None,
    }
}

} // verus!
