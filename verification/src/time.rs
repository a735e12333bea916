//! Parsing of collaborator-reported RFC 3339 timestamps into the
//! representation this library uses for points in time: milliseconds since
//! the Unix epoch.

use vstd::prelude::*;

verus! {

/// The instant that an RFC 3339 date-and-time text denotes, in
/// milliseconds since the Unix epoch, or `None` where the text is not a
/// valid RFC 3339 date-and-time. The result depends on the characters
/// alone.
pub uninterp spec fn rfc3339_millis(s: Seq<char>) -> Option<i64>;

/// Relies on chrono's `DateTime::parse_from_rfc3339`, which parses an RFC
/// 3339 date-and-time together with its offset, and on
/// `DateTime::timestamp_millis`, which gives the parsed instant in
/// milliseconds since the Unix epoch. Both depend on the text alone, so
/// their composition is named `rfc3339_millis`; a parse error becomes
/// `None`.
#[verifier::external_body]
pub fn parse_timestamp_to_system_time(timestamp: &str) -> (r: Option<i64>)
    ensures
        r == rfc3339_millis(timestamp@),
{
    match chrono::DateTime::parse_from_rfc3339(timestamp) {
        Ok(instant) => Some(instant.timestamp_millis()),
        Err(_) => None,
    }
}

} // verus!
