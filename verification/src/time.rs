//! Points in time and the spans between them, counted in nanoseconds.
use vstd::prelude::*;

verus! {

pub const NANOS_PER_MILLI: u128 = 1_000_000;

/// A span of time.
#[derive(Clone, Copy, Debug, PartialEq, Eq, Structural)]
pub struct Duration {
    pub nanos: u128,
}

impl Duration {
    /// The span of `millis` milliseconds.
    pub open spec fn of_millis(millis: u64) -> Duration {
        Duration { nanos: (millis * NANOS_PER_MILLI) as u128 }
    }

    /// Makes the span of `millis` milliseconds.
    pub fn from_millis(millis: u64) -> (span: Duration)
        ensures
            span.nanos == millis * NANOS_PER_MILLI,
            span == Duration::of_millis(millis),
    {
        assert(millis * NANOS_PER_MILLI <= u64::MAX * NANOS_PER_MILLI) by (nonlinear_arith)
            requires
                0 <= millis <= u64::MAX,
        ;
        Duration { nanos: (millis as u128) * NANOS_PER_MILLI }
    }
}

/// A reading of a clock that never runs backwards, as the span since the clock's origin.
#[derive(Clone, Copy, Debug, PartialEq, Eq, Structural)]
pub struct Instant {
    pub nanos: u128,
}

impl Instant {
    /// The time from `earlier` to this instant, or the empty span if `earlier` lies ahead.
    pub open spec fn since(self, earlier: Instant) -> Duration {
        if earlier.nanos <= self.nanos {
            Duration { nanos: (self.nanos - earlier.nanos) as u128 }
        } else {
            Duration { nanos: 0 }
        }
    }

    /// Whether the clock can still show the instant `span` after this one.
    pub open spec fn can_advance(self, span: Duration) -> bool {
        self.nanos + span.nanos <= u128::MAX
    }

    /// The instant `span` after this one.
    pub open spec fn advanced(self, span: Duration) -> Instant {
        Instant { nanos: (self.nanos + span.nanos) as u128 }
    }

    /// Measures the time from `earlier` to this instant.
    pub fn duration_since(self, earlier: Instant) -> (span: Duration)
        ensures
            span == self.since(earlier),
    {
        if earlier.nanos <= self.nanos {
            Duration { nanos: self.nanos - earlier.nanos }
        } else {
            Duration { nanos: 0 }
        }
    }

    /// Moves `span` ahead.
    pub fn advance(self, span: Duration) -> (later: Instant)
        requires
            self.can_advance(span),
        ensures
            later == self.advanced(span),
    {
        Instant { nanos: self.nanos + span.nanos }
    }
}

/// An instant that lies a span ahead is that span away, and the way back takes no time. A
/// thousandth of a second has a million nanoseconds.
pub proof fn law_time_adds_up(earlier: Instant, span: Duration, millis: u64)
    requires
        earlier.can_advance(span),
    ensures
        earlier.advanced(span).nanos == earlier.nanos + span.nanos,
        earlier.advanced(span).since(earlier) == span,
        earlier.since(earlier.advanced(span)).nanos == 0,
        Duration::of_millis(millis).nanos == millis * 1_000_000,
{
}

} // verus!
