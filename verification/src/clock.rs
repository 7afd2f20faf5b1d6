//! A monotonic clock reading nanoseconds since it was started.
use vstd::prelude::*;

verus! {

#[verifier::external_type_specification]
#[verifier::external_body]
pub struct ExInstant(std::time::Instant);

/// `std::time::Instant::now`: the current instant of the monotonic clock.
/// Nothing is claimed of the value.
#[verifier::external_body]
fn instant_now() -> std::time::Instant {
    std::time::Instant::now()
}

/// `std::time::Instant::elapsed`, in whole nanoseconds: the time since `start`
/// (zero if the clock reads earlier). Nothing is claimed of the value, which
/// depends on the time of the call.
#[verifier::external_body]
fn nanos_elapsed_since(start: &std::time::Instant) -> u128 {
    start.elapsed().as_nanos()
}

/// A monotonic clock; its readings are nanoseconds since it was started.
#[derive(Clone, Copy, Debug)]
pub struct MonotonicClock {
    start: std::time::Instant,
}

impl MonotonicClock {
    pub fn start() -> (clock: Self) {
        MonotonicClock { start: instant_now() }
    }

    /// Nanoseconds since the clock was started.
    pub fn now(&self) -> (nanos: u128) {
        nanos_elapsed_since(&self.start)
    }
}

} // verus!
