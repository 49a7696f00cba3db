//! Timestamps for the alert state record.
//!
//! The record on disk holds a single RFC 2822 date-and-time string.  Here a
//! timestamp is modelled as whole seconds since the Unix epoch; chrono does
//! the rendering and the parsing behind trusted wrappers, and the round trip
//! between the two is part of their contract.

use vstd::prelude::*;

verus! {

/// Last second of year 9999 UTC, the latest instant the RFC 2822 rendering
/// accepts (the format has a four-digit year).
pub const MAX_TIMESTAMP: i64 = 253402300799;

/// A timestamp the record format can carry: between the Unix epoch and the
/// end of year 9999.
pub open spec fn valid_timestamp(t: i64) -> bool {
    0 <= t <= MAX_TIMESTAMP
}

/// The instant, in seconds since the Unix epoch, that chrono's RFC 2822
/// parser reads out of a string, or `None` where the string does not parse.
pub uninterp spec fn rfc2822_timestamp(text: Seq<char>) -> Option<i64>;

/// Relies on chrono's `DateTime::parse_from_rfc2822` and
/// `DateTime::timestamp`: the parse is a pure function of the input string,
/// and `timestamp` maps the parsed instant to seconds since the Unix epoch.
#[verifier::external_body]
pub fn parse_rfc2822(text: &str) -> (r: Option<i64>)
    ensures
        r == rfc2822_timestamp(text@),
{
    match chrono::DateTime::parse_from_rfc2822(text) {
        Ok(t) => Some(t.timestamp()),
        Err(_) => None,
    }
}

/// Relies on chrono's `DateTime::from_timestamp` and `to_rfc2822`: for an
/// in-range number of seconds the conversion succeeds, `to_rfc2822` prints
/// the instant to full second precision with its UTC offset, and
/// `parse_from_rfc2822` reads the very same instant back.
#[verifier::external_body]
pub fn format_rfc2822(secs: i64) -> (r: String)
    requires
        valid_timestamp(secs),
    ensures
        rfc2822_timestamp(r@) == Some(secs),
{
    match chrono::DateTime::from_timestamp(secs, 0) {
        Some(t) => t.to_rfc2822(),
        None => String::new(),
    }
}

/// Relies on chrono's `Utc::now` for the machine clock.  Nothing is promised
/// of the value: the clock may stand anywhere.
#[verifier::external_body]
pub fn unix_now() -> (r: i64) {
    chrono::Utc::now().timestamp()
}

/// The machine clock, where it reads an instant the record format can carry;
/// `None` where the clock stands outside that range.
pub fn current_timestamp() -> (r: Option<i64>)
    ensures
        r matches Some(t) ==> valid_timestamp(t),
{
    let now = unix_now();
    if 0 <= now && now <= MAX_TIMESTAMP {
        Some(now)
    } else {
        None
    }
}

} // verus!
