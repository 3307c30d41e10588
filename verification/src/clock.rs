//! The wall clock, in milliseconds since the Unix epoch.

use vstd::prelude::*;

verus! {

/// Calls `chrono::Utc::now` and `DateTime::timestamp_millis`: the current
/// time in milliseconds since the Unix epoch. It depends on when it is
/// called, so nothing is stated of the result.
#[verifier::external_body]
pub(crate) fn clock_millis() -> i64 {
    chrono::Utc::now().timestamp_millis()
}

/// Reads `chrono::DateTime::<Utc>::MIN_UTC`, the earliest instant that chrono
/// can hold, as milliseconds since the Unix epoch. Its value is left open.
#[verifier::external_body]
pub(crate) fn earliest_millis() -> i64 {
    chrono::DateTime::<chrono::Utc>::MIN_UTC.timestamp_millis()
}

/// The current time in milliseconds since the Unix epoch.
pub fn now_millis() -> i64 {
    clock_millis()
}

} // verus!
