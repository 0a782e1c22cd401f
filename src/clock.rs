//! The wall clock, read through chrono.

use vstd::prelude::*;

verus! {

/// A moment in UTC.
#[derive(Clone, Copy, Debug, PartialEq, Eq, Structural)]
pub struct Timestamp {
    /// Milliseconds since the Unix epoch.
    pub millis: i64,
    /// Nanoseconds since the last whole second.
    pub subsec_nanos: u32,
}

/// Relies on `chrono::Utc::now`: the current time, read as milliseconds since
/// the epoch (`timestamp_millis`) and the sub-second nanoseconds
/// (`timestamp_subsec_nanos`). Nothing is promised of its value.
#[verifier::external_body]
pub fn now() -> (r: Timestamp) {
    let t = chrono::Utc::now();
    Timestamp { millis: t.timestamp_millis(), subsec_nanos: t.timestamp_subsec_nanos() }
}

} // verus!
