//! The monotonic clock that card reads are timed with.
use std::time::Instant;

use vstd::prelude::*;

verus! {

/// `std::time::Instant`, a reading of the monotonic clock, carried through unopened.
#[verifier::external_type_specification]
#[verifier::external_body]
pub struct ExInstant(std::time::Instant);

/// `Instant::now` reads the monotonic clock. Nothing is claimed of the reading.
pub assume_specification[ Instant::now ]() -> Instant
;

/// Calls `Instant::elapsed` and gives the result in nanoseconds. Nothing is claimed of it:
/// it depends on when the call is made.
#[verifier::external_body]
fn elapsed_nanos(since: &Instant) -> (nanos: u128) {
    since.elapsed().as_nanos()
}

/// Nanoseconds in a millisecond.
pub const NANOS_PER_MILLI: u128 = 1_000_000;

/// A clock that counts nanoseconds from the moment it was started.
#[derive(Debug)]
pub(crate) struct Clock {
    started: Instant,
}

impl Clock {
    /// Whether the clock was started at a moment that is a result of `Instant::now`.
    pub(crate) closed spec fn was_started(&self) -> bool {
        call_ensures(Instant::now, (), self.started)
    }

    /// Whether `nanos` is a result of `Instant::elapsed`, in nanoseconds, for the moment the
    /// clock was started at.
    pub(crate) closed spec fn shows(&self, nanos: u128) -> bool {
        call_ensures(elapsed_nanos, (&self.started,), nanos)
    }

    /// Start a clock.
    pub(crate) fn start() -> (clock: Clock)
        ensures
            clock.was_started(),
    {
        Clock { started: Instant::now() }
    }

    /// The nanoseconds since the clock was started.
    pub(crate) fn read(&self) -> (nanos: u128)
        ensures
            self.shows(nanos),
    {
        elapsed_nanos(&self.started)
    }
}

/// A clock holds the moment it was started at, and what it shows is the time elapsed since that
/// very moment, in nanoseconds and unchanged.
proof fn law_clock_shows_elapsed_time(clock: Clock, nanos: u128)
    ensures
        clock.was_started() <==> call_ensures(Instant::now, (), clock.started),
        clock.shows(nanos) <==> call_ensures(elapsed_nanos, (&clock.started,), nanos),
{
}

/// The time that has passed between two readings; none if the later one is not later.
pub open spec fn time_between(earlier: u128, later: u128) -> nat {
    if earlier <= later {
        (later - earlier) as nat
    } else {
        0
    }
}

/// The time that has passed between two readings, in nanoseconds.
pub fn duration_since(earlier: u128, later: u128) -> (nanos: u128)
    ensures
        nanos == time_between(earlier, later),
{
    if earlier <= later {
        later - earlier
    } else {
        0
    }
}

/// The time between two readings is what has to be waited from the earlier to the later one,
/// and nothing if the clock went back.
pub proof fn law_time_between(earlier: u128, later: u128)
    ensures
        earlier <= later ==> earlier + time_between(earlier, later) == later,
        earlier >= later ==> time_between(earlier, later) == 0,
{
}

} // verus!
