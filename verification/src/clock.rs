//! Points in time, and the one place where the library reads the clock.

use vstd::prelude::*;

verus! {

/// A point in time: whole seconds since the start of 1970 in UTC, and the
/// nanoseconds past that second.
#[derive(Clone, Copy, Debug, PartialEq, Eq, Structural)]
pub struct Timestamp {
    pub seconds: i64,
    pub nanos: u32,
}

/// Reads the system clock through `chrono::Utc::now` and hands back the
/// seconds (`DateTime::timestamp`) and the nanoseconds within the second
/// (`DateTime::timestamp_subsec_nanos`) of that moment. Nothing is claimed
/// of the value: two readings may differ or agree. On a machine whose clock
/// stands before 1970 the call does not return.
#[verifier::external_body]
pub(crate) fn now() -> Timestamp {
    let moment = chrono::Utc::now();
    Timestamp { seconds: moment.timestamp(), nanos: moment.timestamp_subsec_nanos() }
}

/// `std::time::Instant`, carried through the library as an opaque value.
#[verifier::external_type_specification]
#[verifier::external_body]
pub struct ExInstant(std::time::Instant);

/// Starts a stopwatch with `std::time::Instant::now`.
#[verifier::external_body]
pub(crate) fn start_stopwatch() -> std::time::Instant {
    std::time::Instant::now()
}

/// The time since the stopwatch was started, as `Instant::elapsed` gives
/// it. Nothing is claimed of the value.
#[verifier::external_body]
pub(crate) fn elapsed_since(started: &std::time::Instant) -> std::time::Duration {
    started.elapsed()
}

/// The whole milliseconds of a duration, as `Duration::as_millis` gives
/// them, cut to 64 bits. Nothing is claimed of the value.
#[verifier::external_body]
pub(crate) fn whole_millis(duration: &std::time::Duration) -> u64 {
    duration.as_millis() as u64
}

} // verus!
