//! What the core reads from the round-trip-time estimator.

use vstd::prelude::*;
use crate::time::Duration;
use crate::time::NANOS_PER_MILLI;

verus! {

/// The shortest wait a timer can usefully realise, in nanoseconds. A pacing
/// delay below this is not scheduled; the packet is sent immediately.
pub const GRANULARITY_NANOS: u64 = NANOS_PER_MILLI;

/// The current smoothed round-trip-time estimate, owned by the
/// RTT-measurement subsystem; the core only reads it.
#[derive(Debug, Clone, Copy, PartialEq, Eq, Structural)]
pub struct RttEstimate {
    pub estimate: Duration,
}

impl RttEstimate {
    pub fn new(estimate: Duration) -> (r: RttEstimate)
        ensures
            r.estimate == estimate,
    {
        RttEstimate { estimate }
    }

    pub fn estimate(&self) -> (r: Duration)
        ensures
            r == self.estimate,
    {
        self.estimate
    }
}

} // verus!
