//! Careful resume: reuse of a previous connection's validated round-trip
//! time and congestion window to shorten the ramp-up of a new connection or
//! path, while bounding the risk of overshoot.
//!
//! After enough of the initial window has been acknowledged
//! (reconnaissance), the window jumps to half the saved one — unless the
//! jump would not help or the live round-trip time diverges too far from
//! the saved one, in which case the attempt is abandoned. The jumped window
//! is then validated against live delivery evidence; any congestion signal
//! while it is unvalidated retreats to half of what was actually delivered.

use vstd::prelude::*;
use crate::recovery::SentPacket;
use crate::time::Duration;
use crate::time::Instant;

verus! {

/// The careful-resume phase. Transitions are one-directional: once `Normal`
/// is reached the machine never leaves it, and the only deviation from the
/// forward path is the retreat `Unvalidated`/`Validating` -> `SafeRetreat`
/// -> `Normal` on a congestion signal.
#[derive(Debug, Clone, Copy, PartialEq, Eq, Structural)]
pub enum State {
    /// Accumulating acknowledged bytes until the initial window is covered
    /// and a jump can be attempted.
    Reconnaissance { acked_bytes: usize },
    /// The window has jumped; the first packet of the unvalidated window is
    /// not sent yet, so its number is not yet available.
    Jumping,
    /// Packets of the jumped window are in flight since `start`.
    Unvalidated { start: Instant },
    /// The jumped window is being confirmed by acknowledgments.
    Validating,
    /// A congestion signal arrived before validation finished; draining
    /// until the last unvalidated packet is acknowledged.
    SafeRetreat,
    /// The resume attempt is over, successfully or not.
    Normal,
}

impl Default for State {
    fn default() -> (r: Self)
        ensures
            r == (State::Reconnaissance { acked_bytes: 0 }),
    {
        State::Reconnaissance { acked_bytes: 0 }
    }
}

/// The parameters saved from an earlier connection or path: an immutable
/// snapshot supplied once at construction.
#[derive(Debug, Clone, Copy, PartialEq, Eq, Structural)]
pub struct SavedParameters {
    pub rtt: Duration,
    pub cwnd: usize,
    pub enabled: bool,
}

/// The careful-resume state machine.
#[derive(Debug, Clone, Copy, PartialEq, Eq, Structural)]
pub struct Resume {
    /// Whether resume is active; when disabled every operation is a no-op
    /// that reports no change.
    pub enabled: bool,
    pub state: State,
    /// The congestion window last observed from the strategy.
    pub cwnd: usize,
    /// Bytes acknowledged while unvalidated, validating or retreating: an
    /// estimate of the path capacity actually proven.
    pub pipesize: usize,
    /// The first packet sent after the jump.
    pub first_unvalidated_pkt: u64,
    /// The last packet sent while the jumped window was unvalidated.
    pub last_unvalidated_pkt: u64,
    /// Set only when a safe retreat completes.
    pub ssthresh: Option<usize>,
    /// The snapshot this resume attempt works from.
    pub saved: SavedParameters,
}

/// `a + b`, stopping at the largest `usize`.
pub open spec fn spec_sat_add(a: usize, b: usize) -> usize {
    if a + b <= usize::MAX {
        (a + b) as usize
    } else {
        usize::MAX
    }
}

fn sat_add(a: usize, b: usize) -> (r: usize)
    ensures
        r == spec_sat_add(a, b),
{
    if a <= usize::MAX - b {
        a + b
    } else {
        usize::MAX
    }
}

impl Resume {
    /// A resume machine that does nothing.
    pub fn disabled() -> (r: Resume)
        ensures
            !r.enabled,
            r.state == (State::Reconnaissance { acked_bytes: 0 }),
    {
        Resume {
            enabled: false,
            state: State::default(),
            cwnd: 0,
            pipesize: 0,
            first_unvalidated_pkt: 0,
            last_unvalidated_pkt: 0,
            ssthresh: None,
            saved: SavedParameters { rtt: Duration { nanos: 0 }, cwnd: 0, enabled: false },
        }
    }

    /// A resume machine working from `saved`; it is active only when the
    /// snapshot says so.
    pub fn with_paramters(saved: SavedParameters) -> (r: Resume)
        ensures
            r == (Resume {
                enabled: saved.enabled,
                state: State::Reconnaissance { acked_bytes: 0 },
                cwnd: 0,
                pipesize: 0,
                first_unvalidated_pkt: 0,
                last_unvalidated_pkt: 0,
                ssthresh: None,
                saved,
            }),
    {
        Resume {
            enabled: saved.enabled,
            state: State::default(),
            cwnd: 0,
            pipesize: 0,
            first_unvalidated_pkt: 0,
            last_unvalidated_pkt: 0,
            ssthresh: None,
            saved,
        }
    }

    /// What the jump attempt does. In `Reconnaissance` with the initial
    /// window covered, the proposed window is half the saved one. The
    /// attempt aborts to `Normal` when the jump would not exceed the
    /// current window, or when the live round-trip time diverges from the
    /// saved one by more than a factor of two below or ten above (the
    /// snapshot cannot be trusted for this path); a live RTT at either
    /// boundary still jumps. Otherwise the machine records the current
    /// window as the starting pipe estimate, adopts the jumped window and
    /// moves to `Jumping`.
    pub open spec fn spec_jump(self, rtt: Duration, initial_cwnd: usize) -> (Resume, Option<usize>) {
        if self.state matches State::Reconnaissance { acked_bytes } && acked_bytes >= initial_cwnd {
            let jump_cwnd = (self.saved.cwnd / 2) as usize;
            let doubled = if rtt.nanos * 2 <= u64::MAX {
                (rtt.nanos * 2) as u64
            } else {
                u64::MAX
            };
            let tenfold = if self.saved.rtt.nanos * 10 <= u64::MAX {
                (self.saved.rtt.nanos * 10) as u64
            } else {
                u64::MAX
            };
            if jump_cwnd <= self.cwnd {
                (Resume { state: State::Normal, ..self }, None)
            } else if doubled < self.saved.rtt.nanos || tenfold < rtt.nanos {
                (Resume { state: State::Normal, ..self }, None)
            } else {
                (Resume { state: State::Jumping, pipesize: self.cwnd, cwnd: jump_cwnd, ..self }, Some(jump_cwnd))
            }
        } else {
            (self, None)
        }
    }

    fn maybe_jump(&mut self, rtt: Duration, initial_cwnd: usize, _now: Instant) -> (r: Option<usize>)
        ensures
            *final(self) == old(self).spec_jump(rtt, initial_cwnd).0,
            r == old(self).spec_jump(rtt, initial_cwnd).1,
    {
        let eligible: bool = match self.state {
            State::Reconnaissance { acked_bytes } => acked_bytes >= initial_cwnd,
            _ => false,
        };
        if !eligible {
            return None;
        }

        let jump_cwnd: usize = self.saved.cwnd / 2;

        if jump_cwnd <= self.cwnd {
            // Abort: the jump is no larger than the window already reached.
            self.state = State::Normal;
            return None;
        }

        let doubled: Duration = rtt.saturating_mul(2);
        let tenfold: Duration = self.saved.rtt.saturating_mul(10);
        if doubled.nanos < self.saved.rtt.nanos || tenfold.nanos < rtt.nanos {
            // Abort: the live RTT diverges from the saved RTT by more than
            // a factor of two below or ten above.
            self.state = State::Normal;
            return None;
        }

        self.pipesize = self.cwnd;
        self.cwnd = jump_cwnd;
        self.state = State::Jumping;
        Some(jump_cwnd)
    }

    /// What entering validation does: with more in flight than the proven
    /// pipe, the window is set to the flight size and the machine
    /// validates; otherwise the sender was rate-limited, there is nothing
    /// more to validate, and the machine completes to `Normal` with the
    /// window reset to the proven pipe.
    pub open spec fn spec_enter_validating(self, flightsize: usize) -> (Resume, usize) {
        if self.pipesize < flightsize {
            (Resume { state: State::Validating, ..self }, flightsize)
        } else {
            (Resume { state: State::Normal, ..self }, self.pipesize)
        }
    }

    fn enter_validating(&mut self, flightsize: usize, _now: Instant) -> (r: usize)
        ensures
            (*final(self), r) == old(self).spec_enter_validating(flightsize),
    {
        if self.pipesize < flightsize {
            self.state = State::Validating;
            flightsize
        } else {
            self.state = State::Normal;
            self.pipesize
        }
    }

    /// Whether more than one round trip has passed since the unvalidated
    /// phase began at `start`.
    pub open spec fn spec_rtt_exceeded(start: Instant, now: Instant, rtt: Duration) -> bool {
        (if now.nanos >= start.nanos {
            now.nanos - start.nanos
        } else {
            0
        }) >= rtt.nanos
    }

    fn maybe_rtt_exceeded(&mut self, start: Instant, now: Instant, rtt: Duration, flightsize: usize) -> (r: Option<usize>)
        ensures
            ({
                let exceeded = Self::spec_rtt_exceeded(start, now, rtt);
                let (s2, c) = old(self).spec_enter_validating(flightsize);
                if exceeded {
                    *final(self) == s2 && r == Some(c)
                } else {
                    *final(self) == *old(self) && r is None
                }
            }),
    {
        if now.saturating_duration_since(start).nanos < rtt.nanos {
            return None;
        }
        Some(self.enter_validating(flightsize, now))
    }

    /// What `on_ack` does. The observed window is recorded first. In
    /// `Reconnaissance` the acknowledged bytes accumulate and the jump is
    /// retried. In `Unvalidated` the pipe estimate grows by the
    /// acknowledged bytes; an acknowledgment at or past the first
    /// unvalidated packet, or more than one round trip in the phase, enters
    /// validation. In `Validating` the pipe estimate grows until the last
    /// unvalidated packet is acknowledged, completing to `Normal`. In
    /// `SafeRetreat` the pipe estimate grows; once the last unvalidated
    /// packet is acknowledged the machine completes to `Normal` and
    /// surfaces the proven pipe as the new slow-start threshold.
    pub open spec fn spec_on_ack(
        self,
        ack: SentPacket,
        rtt: Duration,
        flightsize: usize,
        cwnd: usize,
        initial_cwnd: usize,
        now: Instant,
    ) -> (Resume, Option<usize>, Option<usize>) {
        if !self.enabled {
            (self, None, None)
        } else {
            let seen = Resume { cwnd, ..self };
            match seen.state {
                State::Reconnaissance { acked_bytes } => {
                    let grown = Resume {
                        state: State::Reconnaissance { acked_bytes: spec_sat_add(acked_bytes, ack.len) },
                        ..seen
                    };
                    let (jumped, proposal) = grown.spec_jump(rtt, initial_cwnd);
                    (jumped, proposal, None)
                },
                State::Unvalidated { start } => {
                    let grown = Resume { pipesize: spec_sat_add(seen.pipesize, ack.len), ..seen };
                    if grown.first_unvalidated_pkt <= ack.pn {
                        let (entered, proposal) = grown.spec_enter_validating(flightsize);
                        (entered, Some(proposal), None)
                    } else if Self::spec_rtt_exceeded(start, now, rtt) {
                        let (entered, proposal) = grown.spec_enter_validating(flightsize);
                        (entered, Some(proposal), None)
                    } else {
                        (grown, None, None)
                    }
                },
                State::Validating => {
                    let grown = Resume { pipesize: spec_sat_add(seen.pipesize, ack.len), ..seen };
                    if grown.last_unvalidated_pkt <= ack.pn {
                        (Resume { state: State::Normal, ..grown }, None, None)
                    } else {
                        (grown, None, None)
                    }
                },
                State::SafeRetreat => {
                    let grown = Resume { pipesize: spec_sat_add(seen.pipesize, ack.len), ..seen };
                    if ack.pn < grown.last_unvalidated_pkt {
                        (grown, None, None)
                    } else {
                        (
                            Resume { ssthresh: Some(grown.pipesize), state: State::Normal, ..grown },
                            None,
                            Some(grown.pipesize),
                        )
                    }
                },
                _ => (seen, None, None),
            }
        }
    }

    /// React to an acknowledged packet. Returns a proposed congestion
    /// window, if any, and a proposed slow-start threshold, if any.
    pub fn on_ack(
        &mut self,
        ack: &SentPacket,
        rtt: Duration,
        flightsize: usize,
        cwnd: usize,
        initial_cwnd: usize,
        now: Instant,
    ) -> (r: (Option<usize>, Option<usize>))
        ensures
            ({
                let (s2, proposal, thresh) = old(self).spec_on_ack(*ack, rtt, flightsize, cwnd, initial_cwnd, now);
                *final(self) == s2 && r.0 == proposal && r.1 == thresh
            }),
            !old(self).enabled ==> *final(self) == *old(self) && r.0 is None && r.1 is None,
            old(self).state is Normal ==> final(self).state is Normal,
            final(self).enabled == old(self).enabled,
            final(self).saved == old(self).saved,
    {
        if !self.enabled {
            return (None, None);
        }
        self.cwnd = cwnd;

        match self.state {
            State::Reconnaissance { acked_bytes } => {
                self.state = State::Reconnaissance { acked_bytes: sat_add(acked_bytes, ack.len()) };
                (self.maybe_jump(rtt, initial_cwnd, now), None)
            },
            State::Unvalidated { start } => {
                // Each acknowledgment while unvalidated proves that bytes of
                // the jumped window crossed the path.
                self.pipesize = sat_add(self.pipesize, ack.len());

                // Validation starts when the first packet sent in the
                // unvalidated phase (or a later one) is acknowledged.
                if self.first_unvalidated_pkt <= ack.pn() {
                    return (Some(self.enter_validating(flightsize, now)), None);
                }

                // It also starts if more than one round trip went by in the
                // unvalidated phase.
                (self.maybe_rtt_exceeded(start, now, rtt, flightsize), None)
            },
            State::Validating => {
                self.pipesize = sat_add(self.pipesize, ack.len());

                if self.last_unvalidated_pkt <= ack.pn() {
                    self.state = State::Normal;
                }
                (None, None)
            },
            State::SafeRetreat => {
                self.pipesize = sat_add(self.pipesize, ack.len());
                if ack.pn() < self.last_unvalidated_pkt {
                    return (None, None);
                }
                self.ssthresh = Some(self.pipesize);
                self.state = State::Normal;
                (None, self.ssthresh)
            },
            _ => (None, None),
        }
    }

    /// What `on_sent` does. The observed window is recorded first (even for
    /// an application-limited send, which otherwise changes nothing). In
    /// `Jumping` the sent packet becomes the first unvalidated one and the
    /// unvalidated phase starts now. In `Unvalidated` the sent packet
    /// becomes the last unvalidated one; a fully used window, or more than
    /// one round trip in the phase, enters validation.
    pub open spec fn spec_on_sent(
        self,
        cwnd: usize,
        largest_pkt_sent: u64,
        rtt: Duration,
        flightsize: usize,
        app_limited: bool,
        now: Instant,
    ) -> (Resume, Option<usize>) {
        if !self.enabled {
            (self, None)
        } else {
            let seen = Resume { cwnd, ..self };
            if app_limited {
                (seen, None)
            } else {
                match seen.state {
                    State::Jumping => {
                        (
                            Resume {
                                first_unvalidated_pkt: largest_pkt_sent,
                                state: State::Unvalidated { start: now },
                                ..seen
                            },
                            None,
                        )
                    },
                    State::Unvalidated { start } => {
                        let marked = Resume { last_unvalidated_pkt: largest_pkt_sent, ..seen };
                        if flightsize >= cwnd {
                            let (entered, proposal) = marked.spec_enter_validating(flightsize);
                            (entered, Some(proposal))
                        } else if Self::spec_rtt_exceeded(start, now, rtt) {
                            let (entered, proposal) = marked.spec_enter_validating(flightsize);
                            (entered, Some(proposal))
                        } else {
                            (marked, None)
                        }
                    },
                    _ => (seen, None),
                }
            }
        }
    }

    /// React to a sent packet. Returns a proposed congestion window, if
    /// any.
    pub fn on_sent(
        &mut self,
        cwnd: usize,
        largest_pkt_sent: u64,
        rtt: Duration,
        flightsize: usize,
        app_limited: bool,
        now: Instant,
    ) -> (r: Option<usize>)
        ensures
            (*final(self), r) == old(self).spec_on_sent(cwnd, largest_pkt_sent, rtt, flightsize, app_limited, now),
            !old(self).enabled ==> *final(self) == *old(self) && r is None,
            old(self).state is Normal ==> final(self).state is Normal,
            final(self).enabled == old(self).enabled,
            final(self).saved == old(self).saved,
    {
        if !self.enabled {
            return None;
        }

        self.cwnd = cwnd;

        if app_limited {
            return None;
        }

        match self.state {
            State::Jumping => {
                self.first_unvalidated_pkt = largest_pkt_sent;
                self.state = State::Unvalidated { start: now };
                None
            },
            State::Unvalidated { start } => {
                self.last_unvalidated_pkt = largest_pkt_sent;
                if flightsize >= cwnd {
                    // The window is fully utilized: validation can start.
                    return Some(self.enter_validating(flightsize, now));
                }
                self.maybe_rtt_exceeded(start, now, rtt, flightsize)
            },
            _ => None,
        }
    }

    /// What a congestion signal does: from `Unvalidated` or `Validating`
    /// the machine retreats and proposes half the proven pipe instead of
    /// trusting the jumped window; from `Reconnaissance` the resume attempt
    /// is abandoned outright with no window change; anywhere else nothing
    /// happens.
    pub open spec fn spec_on_congestion(self) -> (Resume, Option<usize>) {
        if !self.enabled {
            (self, None)
        } else {
            match self.state {
                State::Unvalidated { .. } => {
                    (Resume { state: State::SafeRetreat, ..self }, Some((self.pipesize / 2) as usize))
                },
                State::Validating => {
                    (Resume { state: State::SafeRetreat, ..self }, Some((self.pipesize / 2) as usize))
                },
                State::Reconnaissance { .. } => (Resume { state: State::Normal, ..self }, None),
                _ => (self, None),
            }
        }
    }

    fn on_congestion(&mut self, _now: Instant) -> (r: Option<usize>)
        ensures
            (*final(self), r) == old(self).spec_on_congestion(),
    {
        if !self.enabled {
            return None;
        }
        match self.state {
            State::Unvalidated { .. } | State::Validating => {
                self.state = State::SafeRetreat;
                Some(self.pipesize / 2)
            },
            State::Reconnaissance { .. } => {
                self.state = State::Normal;
                None
            },
            _ => None,
        }
    }

    /// The forward order of the phases: reconnaissance first, then the
    /// jump, the unvalidated and validating phases, the retreat, and
    /// finally `Normal`.
    pub open spec fn spec_phase_rank(s: State) -> int {
        match s {
            State::Reconnaissance { .. } => 0,
            State::Jumping => 1,
            State::Unvalidated { .. } => 2,
            State::Validating => 3,
            State::SafeRetreat => 4,
            State::Normal => 5,
        }
    }

    /// Law: phase transitions are one-directional. No operation ever moves
    /// the machine to an earlier phase, and `Normal` — the largest rank —
    /// is therefore terminal.
    pub proof fn lemma_phases_only_move_forward(
        self,
        ack: SentPacket,
        rtt: Duration,
        flightsize: usize,
        cwnd: usize,
        initial_cwnd: usize,
        largest_pkt_sent: u64,
        app_limited: bool,
        now: Instant,
    )
        ensures
            Self::spec_phase_rank(
                self.spec_on_ack(ack, rtt, flightsize, cwnd, initial_cwnd, now).0.state,
            ) >= Self::spec_phase_rank(self.state),
            Self::spec_phase_rank(
                self.spec_on_sent(cwnd, largest_pkt_sent, rtt, flightsize, app_limited, now).0.state,
            ) >= Self::spec_phase_rank(self.state),
            Self::spec_phase_rank(self.spec_on_congestion().0.state)
                >= Self::spec_phase_rank(self.state),
    {
    }

    /// React to an ECN congestion-experienced mark. Returns a proposed
    /// congestion window, if any.
    pub fn on_ecn(&mut self, now: Instant) -> (r: Option<usize>)
        ensures
            (*final(self), r) == old(self).spec_on_congestion(),
            !old(self).enabled ==> *final(self) == *old(self) && r is None,
            old(self).state is Normal ==> final(self).state is Normal,
            final(self).enabled == old(self).enabled,
            final(self).saved == old(self).saved,
    {
        self.on_congestion(now)
    }

    /// React to packet loss. Returns a proposed congestion window, if any.
    pub fn on_packetloss(&mut self, now: Instant) -> (r: Option<usize>)
        ensures
            (*final(self), r) == old(self).spec_on_congestion(),
            !old(self).enabled ==> *final(self) == *old(self) && r is None,
            old(self).state is Normal ==> final(self).state is Normal,
            final(self).enabled == old(self).enabled,
            final(self).saved == old(self).saved,
    {
        self.on_congestion(now)
    }
}

} // verus!


