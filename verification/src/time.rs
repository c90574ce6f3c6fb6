//! Fixed-width time values.
//!
//! The core never reads a clock: every time is supplied by the caller. A
//! compact representation in whole nanoseconds is therefore enough; 64 bits
//! of nanoseconds cover more than five hundred years of connection lifetime.

use vstd::prelude::*;

verus! {

/// Nanoseconds in one millisecond.
pub const NANOS_PER_MILLI: u64 = 1_000_000;

/// A span of time, counted in whole nanoseconds.
///
/// The all-ones value serves as the "not yet measured" sentinel for
/// round-trip-time minimums, mirroring the largest representable span.
#[derive(Debug, Clone, Copy, PartialEq, Eq, Structural)]
pub struct Duration {
    pub nanos: u64,
}

impl Duration {
    /// The largest representable span, used as the "no sample yet" sentinel.
    pub fn max_value() -> (r: Duration)
        ensures
            r.nanos == u64::MAX,
    {
        Duration { nanos: u64::MAX }
    }

    pub fn from_nanos(nanos: u64) -> (r: Duration)
        ensures
            r.nanos == nanos,
    {
        Duration { nanos }
    }

    /// A span of `millis` milliseconds, saturating at the largest span.
    pub fn from_millis(millis: u64) -> (r: Duration)
        ensures
            millis * NANOS_PER_MILLI <= u64::MAX ==> r.nanos == millis * NANOS_PER_MILLI,
            millis * NANOS_PER_MILLI > u64::MAX ==> r.nanos == u64::MAX,
    {
        if millis <= u64::MAX / NANOS_PER_MILLI {
            assert(millis * NANOS_PER_MILLI <= u64::MAX) by (nonlinear_arith)
                requires
                    millis as int <= u64::MAX as int / NANOS_PER_MILLI as int,
            ;
            Duration { nanos: millis * NANOS_PER_MILLI }
        } else {
            assert(millis * NANOS_PER_MILLI > u64::MAX) by (nonlinear_arith)
                requires
                    millis as int > u64::MAX as int / NANOS_PER_MILLI as int,
            ;
            Duration { nanos: u64::MAX }
        }
    }

    /// The sum of two spans, saturating at the largest span.
    pub fn saturating_add(self, other: Duration) -> (r: Duration)
        ensures
            self.nanos + other.nanos <= u64::MAX ==> r.nanos == self.nanos + other.nanos,
            self.nanos + other.nanos > u64::MAX ==> r.nanos == u64::MAX,
    {
        if self.nanos <= u64::MAX - other.nanos {
            Duration { nanos: self.nanos + other.nanos }
        } else {
            Duration { nanos: u64::MAX }
        }
    }

    /// The span multiplied by `factor`, saturating at the largest span.
    pub fn saturating_mul(self, factor: u64) -> (r: Duration)
        ensures
            self.nanos * factor <= u64::MAX ==> r.nanos == self.nanos * factor,
            self.nanos * factor > u64::MAX ==> r.nanos == u64::MAX,
    {
        if factor == 0 {
            Duration { nanos: 0 }
        } else if self.nanos <= u64::MAX / factor {
            assert(self.nanos * factor <= u64::MAX) by (nonlinear_arith)
                requires
                    factor >= 1,
                    self.nanos as int <= u64::MAX as int / factor as int,
            ;
            Duration { nanos: self.nanos * factor }
        } else {
            assert(self.nanos * factor > u64::MAX) by (nonlinear_arith)
                requires
                    factor >= 1,
                    self.nanos as int > u64::MAX as int / factor as int,
            ;
            Duration { nanos: u64::MAX }
        }
    }

    /// The span divided by `divisor`.
    pub fn div(self, divisor: u64) -> (r: Duration)
        requires
            divisor > 0,
        ensures
            r.nanos == self.nanos / divisor,
    {
        Duration { nanos: self.nanos / divisor }
    }

    /// The smaller of two spans.
    pub fn min(self, other: Duration) -> (r: Duration)
        ensures
            r.nanos == if self.nanos <= other.nanos { self.nanos } else { other.nanos },
    {
        if self.nanos <= other.nanos {
            self
        } else {
            other
        }
    }

    /// The span forced into `[lo, hi]`.
    pub fn clamp(self, lo: Duration, hi: Duration) -> (r: Duration)
        requires
            lo.nanos <= hi.nanos,
        ensures
            r.nanos == if self.nanos < lo.nanos {
                lo.nanos
            } else if self.nanos > hi.nanos {
                hi.nanos
            } else {
                self.nanos
            },
    {
        if self.nanos < lo.nanos {
            lo
        } else if self.nanos > hi.nanos {
            hi
        } else {
            self
        }
    }
}

/// A point in time, counted in whole nanoseconds from an arbitrary origin
/// chosen by the caller.
#[derive(Debug, Clone, Copy, PartialEq, Eq, Structural)]
pub struct Instant {
    pub nanos: u64,
}

impl Instant {
    pub fn from_nanos(nanos: u64) -> (r: Instant)
        ensures
            r.nanos == nanos,
    {
        Instant { nanos }
    }

    /// The span since `earlier`, or the empty span when `self` lies before
    /// `earlier` (a clock that moved backwards).
    pub fn saturating_duration_since(self, earlier: Instant) -> (r: Duration)
        ensures
            self.nanos >= earlier.nanos ==> r.nanos == self.nanos - earlier.nanos,
            self.nanos < earlier.nanos ==> r.nanos == 0,
    {
        if self.nanos >= earlier.nanos {
            Duration { nanos: self.nanos - earlier.nanos }
        } else {
            Duration { nanos: 0 }
        }
    }

    /// The point `duration` later, saturating at the largest representable
    /// point.
    pub fn saturating_add(self, duration: Duration) -> (r: Instant)
        ensures
            self.nanos + duration.nanos <= u64::MAX ==> r.nanos == self.nanos + duration.nanos,
            self.nanos + duration.nanos > u64::MAX ==> r.nanos == u64::MAX,
    {
        if self.nanos <= u64::MAX - duration.nanos {
            Instant { nanos: self.nanos + duration.nanos }
        } else {
            Instant { nanos: u64::MAX }
        }
    }
}

} // verus!
