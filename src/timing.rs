//! The record of one completed measurement.
use vstd::prelude::*;
use std::time::{Duration, Instant};

verus! {

#[verifier::external_type_specification]
#[verifier::external_body]
pub struct ExInstant(Instant);

/// Relies on `Instant::now`: reads the monotonic clock. Nothing is promised of the value.
pub assume_specification[ Instant::now ]() -> Instant;

/// Relies on `Instant::elapsed`: the time since the instant, zero where the clock reads earlier.
/// Nothing is promised of the value, which depends on when it is called.
pub assume_specification[ Instant::elapsed ](i: &Instant) -> Duration;

/// One completed measurement: a label, when it began, and how long it lasted.
pub struct Timing {
    pub name: String,
    pub begin: Instant,
    pub duration: Duration,
}

impl Timing {
    /// Builds a record from its three parts, as a guard does when it ends.
    pub fn new(name: String, begin: Instant, duration: Duration) -> (r: Timing)
        ensures
            r.name@ == name@,
            r.begin == begin,
            r.duration == duration,
    {
        Timing { name, begin, duration }
    }

    /// The label of the measurement.
    pub fn name(&self) -> (r: &str)
        ensures
            r@ == self.name@,
    {
        self.name.as_str()
    }
}

} // verus!
