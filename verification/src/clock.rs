//! Points in time as milliseconds since the Unix epoch.

use vstd::prelude::*;

verus! {

/// The instant `seconds` seconds after `now`, capped at the largest
/// representable instant.
pub open spec fn later(now: i64, seconds: nat) -> i64 {
    if now + seconds * 1000 <= i64::MAX {
        (now + seconds * 1000) as i64
    } else {
        i64::MAX
    }
}

/// Computes the instant `seconds` seconds after `now`.
pub fn later_by(now: i64, seconds: u64) -> (at: i64)
    ensures
        at == later(now, seconds as nat),
{
    let total: i128 = now as i128 + seconds as i128 * 1000;
    if total <= i64::MAX as i128 {
        total as i64
    } else {
        i64::MAX
    }
}

/// Reads the wall clock with `chrono::Local::now` and returns the local
/// date and time, taken as if it were UTC, in milliseconds. Nothing is
/// promised of the value: it is whatever the clock shows.
#[verifier::external_body]
pub(crate) fn local_millis() -> i64 {
    chrono::Local::now().naive_local().and_utc().timestamp_millis()
}

/// Reads the wall clock with `chrono::Utc::now` and returns the instant in
/// seconds since the Unix epoch. Nothing is promised of the value.
#[verifier::external_body]
pub(crate) fn utc_seconds() -> i64 {
    chrono::Utc::now().timestamp()
}

/// Reads the wall clock with `chrono::Utc::now` and returns the instant in
/// milliseconds since the Unix epoch. Nothing is promised of the value.
#[verifier::external_body]
pub(crate) fn utc_millis() -> i64 {
    chrono::Utc::now().timestamp_millis()
}

} // verus!
