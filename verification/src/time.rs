//! Spans of time and points in time, counted in nanoseconds.
use vstd::prelude::*;

verus! {

/// A span of time.
#[derive(Clone, Copy, Debug, PartialEq, Eq, Structural)]
pub struct Duration {
    /// Length of the span, in nanoseconds.
    pub nanos: u128,
}

impl Duration {
    /// The empty span.
    pub fn zero() -> (r: Self)
        ensures
            r.nanos == 0,
    {
        Duration { nanos: 0 }
    }

    /// A span of `millis` milliseconds.
    pub fn from_millis(millis: u64) -> (r: Self)
        ensures
            r.nanos == millis * 1_000_000,
    {
        Duration { nanos: millis as u128 * 1_000_000 }
    }
}

/// A point in time, read from a clock that never goes back.
#[derive(Clone, Copy, Debug, PartialEq, Eq, Structural)]
pub struct Instant {
    /// Nanoseconds since the origin of the clock.
    pub nanos: u128,
}

/// Nanoseconds that separate `earlier` from `later`, none when `earlier` comes second.
pub open spec fn nanos_between(earlier: Instant, later: Instant) -> int {
    if earlier.nanos <= later.nanos {
        later.nanos - earlier.nanos
    } else {
        0
    }
}

impl Instant {
    /// The time elapsed since `earlier`, or the empty span if `earlier` is later than `self`.
    pub fn duration_since(&self, earlier: Instant) -> (r: Duration)
        ensures
            r.nanos == nanos_between(earlier, *self),
    {
        if earlier.nanos <= self.nanos {
            Duration { nanos: self.nanos - earlier.nanos }
        } else {
            Duration::zero()
        }
    }
}

/// The span between two points in time leads from the earlier to the later one, and it is empty
/// where the point taken for the earlier one does not come first.
pub proof fn law_a_span_leads_from_point_to_point(earlier: Instant, later: Instant)
    ensures
        earlier.nanos <= later.nanos ==> earlier.nanos + nanos_between(earlier, later)
            == later.nanos,
        later.nanos <= earlier.nanos ==> nanos_between(earlier, later) == 0,
{
}

} // verus!
