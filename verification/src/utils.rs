//! Clock access.  The clocks are the library's only nondeterministic inputs;
//! everything that depends on them takes the reading as an argument.

use vstd::prelude::*;

verus! {

/// Relies on `time::OffsetDateTime::now_utc().unix_timestamp_nanos()`:
/// nanoseconds since the Unix epoch.  Nothing is assumed of the reading.
#[verifier::external_body]
pub fn get_unix_nano() -> (r: i128) {
    time::OffsetDateTime::now_utc().unix_timestamp_nanos()
}

/// Milliseconds since the Unix epoch.
pub fn get_unix() -> (r: i64) {
    let nanos = get_unix_nano();
    #[verifier::truncate]
    let millis = (nanos / 1000000i128) as i64;
    millis
}

/// Whole seconds since the Unix epoch, as the rate-limit governor takes them.
pub fn unix_now_seconds() -> (r: u32) {
    let millis = get_unix();
    #[verifier::truncate]
    let secs = (millis / 1000i64) as u32;
    secs
}

/// Relies on chrono's UTC clock and formatter: the current instant as
/// ISO-8601 with millisecond precision and a `Z` suffix.
#[verifier::external_body]
pub fn utc_now_iso_millis() -> (r: String) {
    chrono::Utc::now().format("%Y-%m-%dT%H:%M:%S%.3fZ").to_string()
}

/// Relies on chrono's UTC clock: whole seconds since the Unix epoch.
#[verifier::external_body]
pub fn utc_now_seconds_i64() -> (r: i64) {
    chrono::Utc::now().timestamp()
}

} // verus!
