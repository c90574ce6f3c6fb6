//! HyStart++ slow-start exit detection, following RFC 9406 semantics.
//!
//! The detector watches per-round minimums of the round-trip time. A rise
//! of the current round's minimum beyond a clamped threshold over the last
//! round's minimum signals queue build-up and moves the sender into
//! conservative slow start (CSS), where window growth is damped. A later
//! drop back below the CSS baseline reveals the exit as spurious and
//! returns to slow start; enough completed CSS rounds confirm the exit and
//! enter congestion avoidance.

use vstd::prelude::*;
use crate::recovery::SentPacket;
use crate::time::Duration;
use crate::time::Instant;
use crate::time::NANOS_PER_MILLI;

verus! {

/// From RFC 9406: the delay increase sensitivity is determined by
/// `MIN_RTT_THRESH_NANOS` and `MAX_RTT_THRESH_NANOS`. Smaller values of the
/// former may cause spurious exits from slow start; larger values of the
/// latter may keep slow start from exiting until loss is encountered on
/// large-RTT paths.
pub const MIN_RTT_THRESH_NANOS: u64 = 4 * NANOS_PER_MILLI;
pub const MAX_RTT_THRESH_NANOS: u64 = 16 * NANOS_PER_MILLI;
/// The fraction of the last round's minimum RTT used as the delay
/// threshold. A smaller value means a larger threshold and thus less
/// sensitivity to delay increase, and vice versa.
pub const MIN_RTT_DIVISOR: u64 = 8;
/// How many RTT samples a round needs before its minimum is trusted.
pub const N_RTT_SAMPLE: usize = 8;
/// Divisor applied to window increases during conservative slow start.
/// It must be at least 2; a value of 1 would grow as aggressively as
/// regular slow start.
pub const CSS_GROWTH_DIVISOR: usize = 4;
/// Completed conservative-slow-start rounds needed to confirm the exit and
/// enter congestion avoidance.
pub const CSS_ROUNDS: usize = 5;

/// The detector's phase.
#[derive(Debug, Clone, Copy, PartialEq, Eq, Structural)]
pub enum State {
    SlowStart,
    /// Conservative slow start: the exit is provisional; `baseline_min_rtt`
    /// is the round minimum that triggered it and `rounds` counts the
    /// completed rounds since.
    CSS { baseline_min_rtt: Duration, rounds: usize },
    CongestionAvoidance,
}

impl Default for State {
    fn default() -> (r: Self)
        ensures
            r == State::SlowStart,
    {
        State::SlowStart
    }
}

/// The HyStart++ slow-start exit detector.
#[derive(Debug, Clone, Copy, PartialEq, Eq, Structural)]
pub struct HystartPP {
    /// Whether the heuristic is active; when disabled every operation is a
    /// no-op and `cwnd_increase` returns its input unchanged.
    pub enabled: bool,
    pub state: State,
    /// The previous round's minimum RTT; all-ones while unmeasured.
    pub last_round_min_rtt: Duration,
    /// The running minimum RTT of the current round; all-ones while
    /// unmeasured.
    pub current_round_min_rtt: Duration,
    /// RTT samples folded into the current round so far.
    pub rtt_sample_count: usize,
    /// The packet number whose acknowledgment closes the current round, if
    /// a round is open.
    pub window_end: Option<u64>,
}

impl Default for HystartPP {
    fn default() -> (r: Self)
        ensures
            r == (HystartPP {
                enabled: false,
                state: State::SlowStart,
                last_round_min_rtt: Duration { nanos: 0 },
                current_round_min_rtt: Duration { nanos: 0 },
                rtt_sample_count: 0,
                window_end: None,
            }),
    {
        HystartPP {
            enabled: false,
            state: State::SlowStart,
            last_round_min_rtt: Duration { nanos: 0 },
            current_round_min_rtt: Duration { nanos: 0 },
            rtt_sample_count: 0,
            window_end: None,
        }
    }
}

impl HystartPP {
    /// The completed-round count never passes the confirmation limit while
    /// in conservative slow start.
    pub open spec fn wf(self) -> bool {
        self.state matches State::CSS { rounds, .. } ==> rounds < CSS_ROUNDS
    }

    /// A detector that does nothing.
    pub fn disabled() -> (r: Self)
        ensures
            !r.enabled,
            r.wf(),
    {
        Self::default()
    }

    /// An active detector in slow start with no round open and no minimum
    /// measured yet.
    pub fn new() -> (r: Self)
        ensures
            r == (HystartPP {
                enabled: true,
                state: State::SlowStart,
                last_round_min_rtt: Duration { nanos: u64::MAX },
                current_round_min_rtt: Duration { nanos: u64::MAX },
                rtt_sample_count: 0,
                window_end: None,
            }),
            r.wf(),
    {
        HystartPP {
            enabled: true,
            state: State::SlowStart,
            last_round_min_rtt: Duration { nanos: u64::MAX },
            current_round_min_rtt: Duration { nanos: u64::MAX },
            rtt_sample_count: 0,
            window_end: None,
        }
    }

    /// What `on_sent` does: when no round is open, `pkt_num` starts one,
    /// the current round's minimum rotates into the last round's, and the
    /// sample counter restarts.
    pub open spec fn spec_on_sent(self, pkt_num: u64) -> HystartPP {
        if !self.enabled || self.window_end is Some {
            self
        } else {
            HystartPP {
                window_end: Some(pkt_num),
                last_round_min_rtt: self.current_round_min_rtt,
                current_round_min_rtt: Duration { nanos: u64::MAX },
                rtt_sample_count: 0,
                ..self
            }
        }
    }

    /// At the start of each round during standard slow start and CSS,
    /// initialize the variables used to compute the last round's and the
    /// current round's minimum RTT.
    pub fn on_sent(&mut self, pkt_num: u64)
        ensures
            *final(self) == old(self).spec_on_sent(pkt_num),
            !old(self).enabled ==> *final(self) == *old(self),
            old(self).wf() ==> final(self).wf(),
    {
        if !self.enabled || self.window_end.is_some() {
            return;
        }
        self.window_end = Some(pkt_num);
        self.last_round_min_rtt = self.current_round_min_rtt;
        self.current_round_min_rtt = Duration::max_value();
        self.rtt_sample_count = 0;
    }

    /// The delay threshold for the slow-start exit check:
    /// an eighth of the last round's minimum RTT, clamped to
    /// `[MIN_RTT_THRESH_NANOS, MAX_RTT_THRESH_NANOS]`.
    pub open spec fn spec_rtt_thresh(last_round_min_rtt: Duration) -> u64 {
        let fraction = last_round_min_rtt.nanos / MIN_RTT_DIVISOR;
        if fraction < MIN_RTT_THRESH_NANOS {
            MIN_RTT_THRESH_NANOS
        } else if fraction > MAX_RTT_THRESH_NANOS {
            MAX_RTT_THRESH_NANOS
        } else {
            fraction
        }
    }

    /// What `on_ack` does. The sample is folded into the current round's
    /// minimum first. In slow start, the round closes once its end packet
    /// is acknowledged; with enough samples and both round minimums known,
    /// a current minimum at or above the last minimum plus the threshold
    /// exits to CSS (a partial round at the transition counts as one
    /// completed round). In CSS, with enough samples a current minimum
    /// below the baseline reverts to slow start as a spurious exit, and
    /// independently a closing round increments the completed-round count,
    /// entering congestion avoidance at the limit.
    pub open spec fn spec_on_ack(self, ack: SentPacket, rtt: Duration) -> HystartPP {
        if !self.enabled {
            self
        } else {
            let sampled = HystartPP {
                rtt_sample_count: if self.rtt_sample_count < usize::MAX {
                    (self.rtt_sample_count + 1) as usize
                } else {
                    usize::MAX
                },
                current_round_min_rtt: if self.current_round_min_rtt.nanos <= rtt.nanos {
                    self.current_round_min_rtt
                } else {
                    rtt
                },
                ..self
            };
            match sampled.state {
                State::SlowStart => {
                    let closed = if sampled.window_end matches Some(end) && end <= ack.pn {
                        HystartPP { window_end: None, ..sampled }
                    } else {
                        sampled
                    };
                    if closed.rtt_sample_count >= N_RTT_SAMPLE
                        && closed.current_round_min_rtt.nanos != u64::MAX
                        && closed.last_round_min_rtt.nanos != u64::MAX {
                        let thresh = Self::spec_rtt_thresh(closed.last_round_min_rtt);
                        let critical = if closed.last_round_min_rtt.nanos + thresh <= u64::MAX {
                            (closed.last_round_min_rtt.nanos + thresh) as u64
                        } else {
                            u64::MAX
                        };
                        if closed.current_round_min_rtt.nanos >= critical {
                            HystartPP {
                                state: State::CSS {
                                    baseline_min_rtt: closed.current_round_min_rtt,
                                    rounds: if closed.window_end is Some {
                                        1
                                    } else {
                                        0
                                    },
                                },
                                ..closed
                            }
                        } else {
                            closed
                        }
                    } else {
                        closed
                    }
                },
                State::CSS { baseline_min_rtt, rounds } => {
                    let reverted = if sampled.rtt_sample_count >= N_RTT_SAMPLE
                        && sampled.current_round_min_rtt.nanos < baseline_min_rtt.nanos {
                        HystartPP { state: State::SlowStart, ..sampled }
                    } else {
                        sampled
                    };
                    if sampled.window_end matches Some(end) && end <= ack.pn {
                        let next_rounds = if rounds < usize::MAX {
                            (rounds + 1) as usize
                        } else {
                            usize::MAX
                        };
                        HystartPP {
                            window_end: None,
                            state: if next_rounds >= CSS_ROUNDS {
                                State::CongestionAvoidance
                            } else {
                                State::CSS { baseline_min_rtt, rounds: next_rounds }
                            },
                            ..reverted
                        }
                    } else {
                        reverted
                    }
                },
                State::CongestionAvoidance => sampled,
            }
        }
    }

    /// Fold an RTT sample for an acknowledged packet into the current round
    /// and apply the exit, reversal and confirmation rules.
    pub fn on_ack(&mut self, ack: &SentPacket, rtt: Duration, _now: Instant)
        ensures
            *final(self) == old(self).spec_on_ack(*ack, rtt),
            !old(self).enabled ==> *final(self) == *old(self),
            old(self).wf() ==> final(self).wf(),
    {
        if !self.enabled {
            return;
        }

        self.rtt_sample_count = if self.rtt_sample_count < usize::MAX {
            self.rtt_sample_count + 1
        } else {
            usize::MAX
        };
        self.current_round_min_rtt = self.current_round_min_rtt.min(rtt);

        match self.state {
            State::SlowStart => {
                if let Some(end_pkt) = self.window_end {
                    if end_pkt <= ack.pn() {
                        self.window_end = None;
                    }
                }
                // For rounds where at least N_RTT_SAMPLE samples have been
                // obtained and both round minimums are valid, check whether
                // the delay increase triggers a slow-start exit.
                if self.rtt_sample_count >= N_RTT_SAMPLE
                    && self.current_round_min_rtt.nanos != u64::MAX
                    && self.last_round_min_rtt.nanos != u64::MAX {
                    let rtt_thresh: Duration = self.last_round_min_rtt
                        .div(MIN_RTT_DIVISOR)
                        .clamp(
                            Duration::from_nanos(MIN_RTT_THRESH_NANOS),
                            Duration::from_nanos(MAX_RTT_THRESH_NANOS),
                        );
                    let critical: Duration = self.last_round_min_rtt.saturating_add(rtt_thresh);
                    if self.current_round_min_rtt.nanos >= critical.nanos {
                        self.state = State::CSS {
                            baseline_min_rtt: self.current_round_min_rtt,
                            // A transition in the middle of a round counts
                            // that partial round towards the limit.
                            rounds: if self.window_end.is_some() {
                                1
                            } else {
                                0
                            },
                        };
                    }
                }
            },
            State::CSS { baseline_min_rtt, rounds } => {
                // For CSS rounds with at least N_RTT_SAMPLE samples, a
                // current-round minimum below the baseline means the exit
                // was spurious.
                if self.rtt_sample_count >= N_RTT_SAMPLE
                    && self.current_round_min_rtt.nanos < baseline_min_rtt.nanos {
                    self.state = State::SlowStart;
                }
                // Once enough rounds are complete, enter congestion
                // avoidance.
                if let Some(end_pkt) = self.window_end {
                    if end_pkt <= ack.pn() {
                        self.window_end = None;
                        let next_rounds: usize = if rounds < usize::MAX {
                            rounds + 1
                        } else {
                            usize::MAX
                        };
                        self.state = if next_rounds >= CSS_ROUNDS {
                            State::CongestionAvoidance
                        } else {
                            State::CSS { baseline_min_rtt, rounds: next_rounds }
                        };
                    }
                }
            },
            State::CongestionAvoidance => {},
        }
    }

    /// An external congestion signal ends the search unconditionally.
    pub fn on_congestion(&mut self)
        ensures
            *final(self) == if old(self).enabled {
                (HystartPP { state: State::CongestionAvoidance, ..*old(self) })
            } else {
                *old(self)
            },
            !old(self).enabled ==> *final(self) == *old(self),
            old(self).wf() ==> final(self).wf(),
    {
        if !self.enabled {
            return;
        }
        self.state = State::CongestionAvoidance;
    }

    /// The damped growth during conservative slow start: a proposed window
    /// increase is divided by `CSS_GROWTH_DIVISOR`; in every other phase,
    /// and while disabled, the proposal passes through unchanged.
    pub open spec fn spec_cwnd_increase(self, increase: usize) -> usize {
        if !self.enabled {
            increase
        } else {
            match self.state {
                State::CSS { .. } => (increase / CSS_GROWTH_DIVISOR) as usize,
                State::SlowStart => increase,
                State::CongestionAvoidance => increase,
            }
        }
    }

    /// Damp a proposed congestion-window increase; this is the sole output
    /// the congestion-control strategy consumes.
    pub fn cwnd_increase(&self, increase: usize, _max_datagram_size: usize) -> (r: usize)
        ensures
            r == self.spec_cwnd_increase(increase),
            !self.enabled ==> r == increase,
    {
        if !self.enabled {
            return increase;
        }

        match self.state {
            State::CSS { .. } => increase / CSS_GROWTH_DIVISOR,
            State::SlowStart => increase,
            State::CongestionAvoidance => increase,
        }
    }
}

} // verus!

