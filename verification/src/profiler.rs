//! A stopwatch with a name.
use std::time::Duration;
use std::time::Instant;
use vstd::prelude::*;

verus! {

/// `std::time::Instant`, a reading of the monotonic clock. Nothing is known
/// of what a value holds.
#[verifier::external_type_specification]
#[verifier::external_body]
pub struct ExInstant(Instant);

/// `Instant::now` reads the clock. Nothing is claimed of the reading.
pub assume_specification[ Instant::now ]() -> Instant;

/// `Instant::elapsed` gives the time since the reading was taken. Nothing
/// is claimed of it: it depends on when it is asked.
pub assume_specification[ Instant::elapsed ](instant: &Instant) -> Duration;

/// Measures how long a named piece of work takes, from its creation on.
pub struct Profiler {
    name: &'static str,
    start: Instant,
}

impl Profiler {
    /// The name that the profiler was started under.
    pub closed spec fn label(self) -> &'static str {
        self.name
    }

    /// Starts a profiler under a name, at this moment.
    pub fn new(name: &'static str) -> (profiler: Profiler)
        ensures
            profiler.label() == name,
    {
        Profiler { name, start: Instant::now() }
    }

    /// The name that the profiler was started under.
    pub fn name(&self) -> (name: &'static str)
        ensures
            name == self.label(),
    {
        self.name
    }

    /// The time since the profiler was started.
    pub fn elapsed(&self) -> Duration {
        self.start.elapsed()
    }
}

} // verus!
