//! Rendering of nanosecond timestamps as ISO 8601 text.

use vstd::prelude::*;

verus! {

/// The number of nanoseconds in one second.
pub const NANOS_PER_SEC: u64 = 1_000_000_000;

/// The text that chrono gives for the UTC instant `secs` seconds and `nanos`
/// nanoseconds after the UNIX epoch, in RFC 3339 form with nine fractional
/// digits and a closing `Z`, such as `2022-04-15T05:20:00.000000000Z`.
pub uninterp spec fn rfc3339_utc_nanos(secs: i64, nanos: u32) -> Seq<char>;

/// Calls `chrono::DateTime::from_timestamp` and, where that gives an instant,
/// `DateTime::to_rfc3339_opts(SecondsFormat::Nanos, true)` on it.
///
/// Believed, not proved: the text depends on the two numbers alone, and chrono
/// has an instant for every whole second that a `u64` count of nanoseconds can
/// reach when the nanosecond part is below one second.
#[verifier::external_body]
fn rfc3339_from_parts(secs: i64, nanos: u32) -> (r: Option<String>)
    ensures
        0 <= secs <= 18_446_744_073 && nanos < 1_000_000_000 ==> r is Some,
        r is Some ==> r->Some_0@ == rfc3339_utc_nanos(secs, nanos),
{
    chrono::DateTime::from_timestamp(secs, nanos)
        .map(|dt| dt.to_rfc3339_opts(chrono::SecondsFormat::Nanos, true))
}

/// The ISO 8601 text of a timestamp: the rendering of its whole seconds and of
/// the nanoseconds that are left.
pub open spec fn iso8601(timestamp_ns: u64) -> Seq<char> {
    rfc3339_utc_nanos(
        (timestamp_ns / NANOS_PER_SEC) as i64,
        (timestamp_ns % NANOS_PER_SEC) as u32,
    )
}

/// Renders a UNIX timestamp in nanoseconds as ISO 8601 text in UTC.
pub fn unix_nanos_to_iso8601(timestamp_ns: u64) -> (r: String)
    ensures
        r@ == iso8601(timestamp_ns),
{
    let secs: u64 = timestamp_ns / NANOS_PER_SEC;
    let nanos: u64 = timestamp_ns % NANOS_PER_SEC;
    let text = rfc3339_from_parts(secs as i64, nanos as u32);
    text.unwrap()
}

} // verus!
