//! Points in time, as microseconds since the Unix epoch (UTC).

use vstd::prelude::*;

verus! {

/// A UTC instant, in microseconds since 1970-01-01T00:00:00Z.
#[derive(Debug, Clone, Copy, PartialEq, Eq, Structural)]
pub struct Timestamp {
    pub micros: i64,
}

/// Relies on `chrono::Utc::now` for the current time, read back through
/// `DateTime::timestamp_micros`. Nothing is promised of the value: the clock
/// may stand still or run backwards between two calls.
#[verifier::external_body]
pub(crate) fn now() -> (r: Timestamp) {
    Timestamp { micros: chrono::Utc::now().timestamp_micros() }
}

} // verus!
