//! A packet pacer built on a leaky bucket.
//!
//! The pacer answers "when may the next packet leave" for a given round-trip
//! time and congestion window, and records the bytes actually sent. It keeps
//! a burst budget (`capacity`); once the bytes spent since the last reset
//! reach that budget — or the packet size changes, which marks a new sending
//! phase whose pacing debt must not be inherited — it schedules the next
//! send far enough in the future to hold the sending rate at
//! `PACER_SPEEDUP` times `cwnd` per round trip. A wait shorter than the
//! timer granularity is not scheduled: the packet may leave immediately.

use vstd::prelude::*;
use crate::rtt::GRANULARITY_NANOS;
use crate::time::Duration;
use crate::time::Instant;

verus! {

/// How much faster the pacer operates than the congestion window.
///
/// A value of 1 would space packets over the entire round trip, which is a
/// little slow and might act as an additional restriction when the
/// congestion controller increases the window. This value spaces packets
/// over half the round trip, matching a controller that doubles its window
/// every round trip.
pub const PACER_SPEEDUP: u64 = 2;

/// A pacer that uses a leaky bucket.
#[derive(Debug)]
pub struct Pacer {
    /// Whether pacing is enabled.
    pub enabled: bool,
    /// The last update time.
    pub last_update: Instant,
    /// The earliest allowed send time.
    pub next_time: Instant,
    /// The maximum capacity, or burst size, in bytes.
    pub capacity: usize,
    /// The capacity used since the last reset, in bytes.
    pub used: usize,
    /// The reference packet size, in bytes.
    pub mtu: usize,
    /// The size of the last non-empty send, for same-size burst detection.
    pub last_packet_size: Option<usize>,
}

/// The time needed to move `amount` bytes at `PACER_SPEEDUP` times `cwnd`
/// bytes per `rtt`, in nanoseconds. A zero-rate window or a result too wide
/// for the timer falls back to the raw round-trip time.
pub open spec fn spec_pacing_delay(rtt: Duration, amount: nat, cwnd: nat) -> u64 {
    if cwnd == 0 {
        rtt.nanos
    } else {
        let q = (rtt.nanos * amount) / (cwnd * PACER_SPEEDUP);
        if q > u64::MAX {
            rtt.nanos
        } else {
            q as u64
        }
    }
}

fn pacing_delay(rtt: Duration, amount: usize, cwnd: usize) -> (r: u64)
    ensures
        r == spec_pacing_delay(rtt, amount as nat, cwnd as nat),
{
    if cwnd == 0 {
        return rtt.nanos;
    }
    assert(rtt.nanos as int * amount as int <= u128::MAX) by (nonlinear_arith)
        requires
            rtt.nanos as int <= u64::MAX as int,
            amount as int <= u64::MAX as int,
    ;
    let prod: u128 = (rtt.nanos as u128) * (amount as u128);
    let denom: u128 = (cwnd as u128) * (PACER_SPEEDUP as u128);
    let q: u128 = prod / denom;
    if q > u64::MAX as u128 {
        rtt.nanos
    } else {
        q as u64
    }
}

impl Pacer {
    /// The bucket's internal consistency: the budget admits at least one
    /// byte, spending stays below the budget between resets, and an enabled
    /// pacer never schedules a send before its last update.
    pub open spec fn wf(self) -> bool {
        &&& self.capacity >= 1
        &&& self.used < self.capacity
        &&& self.enabled ==> self.next_time.nanos >= self.last_update.nanos
    }

    /// Create a new `Pacer` at time `now` with burst capacity `m` bytes and
    /// reference packet size `p` bytes. The capacity must admit at least one
    /// packet, and a packet is at least one byte.
    pub fn new(enabled: bool, now: Instant, m: usize, p: usize) -> (r: Pacer)
        requires
            p >= 1,
            m >= p,
        ensures
            r == (Pacer {
                enabled,
                last_update: now,
                next_time: now,
                capacity: m,
                used: 0,
                mtu: p,
                last_packet_size: None,
            }),
            r.wf(),
    {
        Pacer {
            enabled,
            last_update: now,
            next_time: now,
            capacity: m,
            used: 0,
            mtu: p,
            last_packet_size: None,
        }
    }

    /// The reference packet size.
    pub fn mtu(&self) -> (r: usize)
        ensures
            r == self.mtu,
    {
        self.mtu
    }

    /// Update the reference packet size after path-MTU discovery revises it.
    pub fn set_mtu(&mut self, mtu: usize)
        ensures
            *final(self) == (Pacer { mtu, ..*old(self) }),
    {
        self.mtu = mtu;
    }

    /// What `next` returns: the earliest allowed send time, or the time of
    /// the last update when pacing is disabled (send immediately).
    pub open spec fn spec_next(self) -> Instant {
        if !self.enabled {
            self.last_update
        } else {
            self.next_time
        }
    }

    /// Determine when the next packet will be available based on the
    /// provided RTT and congestion window. This doesn't update state. It
    /// returns a time, which could be in the past (this object doesn't know
    /// what the current time is).
    pub fn next(&self, _rtt: Duration, _cwnd: usize) -> (r: Instant)
        ensures
            r == self.spec_next(),
    {
        if !self.enabled {
            return self.last_update;
        }
        self.next_time
    }

    /// What `spend` does to the bucket, step by step: a disabled pacer only
    /// records the time; a clock that moved backwards resets the bucket, as
    /// does an idle spell longer than one burst; the sent bytes are added to
    /// the spent capacity; and a full burst or a change of packet size
    /// schedules the next send, unless the wait would be below the timer
    /// granularity, in which case the next send is allowed immediately.
    pub open spec fn spec_spend(self, now: Instant, rtt: Duration, cwnd: usize, count: usize) -> Pacer {
        if !self.enabled {
            Pacer { last_update: now, ..self }
        } else {
            let after_backward = if now.nanos < self.last_update.nanos {
                Pacer { used: 0, last_update: now, next_time: now, last_packet_size: None, ..self }
            } else {
                self
            };
            let burst_duration = spec_pacing_delay(rtt, after_backward.capacity as nat, cwnd as nat);
            let after_idle = if now.nanos - after_backward.last_update.nanos > burst_duration {
                Pacer { used: 0, last_update: now, next_time: now, last_packet_size: None, ..after_backward }
            } else {
                after_backward
            };
            let used = if after_idle.used + count <= usize::MAX {
                (after_idle.used + count) as usize
            } else {
                usize::MAX
            };
            let same_size = match after_idle.last_packet_size {
                Some(last) => last == count,
                None => true,
            };
            let last_packet_size = if count != 0 {
                Some(count)
            } else {
                after_idle.last_packet_size
            };
            if used >= after_idle.capacity || !same_size {
                let delay = spec_pacing_delay(rtt, used as nat, cwnd as nat);
                let candidate = if after_idle.last_update.nanos + delay <= u64::MAX {
                    (after_idle.last_update.nanos + delay) as u64
                } else {
                    u64::MAX
                };
                let threshold = if now.nanos + GRANULARITY_NANOS <= u64::MAX {
                    (now.nanos + GRANULARITY_NANOS) as u64
                } else {
                    u64::MAX
                };
                let next_time = if candidate < threshold {
                    now
                } else {
                    Instant { nanos: candidate }
                };
                Pacer { used: 0, last_update: now, next_time, last_packet_size: None, ..after_idle }
            } else {
                Pacer { used, last_packet_size, ..after_idle }
            }
        }
    }

    /// Spend credit. This cannot fail; users of this API are expected to
    /// call `next` to determine when to spend. This takes the current time
    /// (`now`), an estimate of the round trip time (`rtt`), the estimated
    /// congestion window (`cwnd`), and the number of bytes that were sent
    /// (`count`); a zero-byte spend is permitted to force a state refresh.
    pub fn spend(&mut self, now: Instant, rtt: Duration, cwnd: usize, count: usize)
        ensures
            *final(self) == old(self).spec_spend(now, rtt, cwnd, count),
            old(self).wf() ==> final(self).wf(),
    {
        if !self.enabled {
            self.last_update = now;
            return;
        }
        if now.nanos < self.last_update.nanos {
            self.used = 0;
            self.last_update = now;
            self.next_time = now;
            self.last_packet_size = None;
        }
        let burst_duration: u64 = pacing_delay(rtt, self.capacity, cwnd);
        let elapsed: u64 = now.nanos - self.last_update.nanos;
        if elapsed > burst_duration {
            self.used = 0;
            self.last_update = now;
            self.next_time = now;
            self.last_packet_size = None;
        }
        self.used = if self.used <= usize::MAX - count {
            self.used + count
        } else {
            usize::MAX
        };
        let same_size: bool = match self.last_packet_size {
            Some(last) => last == count,
            None => true,
        };
        if count != 0 {
            self.last_packet_size = Some(count);
        }
        if self.used >= self.capacity || !same_size {
            let delay: u64 = pacing_delay(rtt, self.used, cwnd);
            let candidate: u64 = if self.last_update.nanos <= u64::MAX - delay {
                self.last_update.nanos + delay
            } else {
                u64::MAX
            };
            let threshold: u64 = if now.nanos <= u64::MAX - GRANULARITY_NANOS {
                now.nanos + GRANULARITY_NANOS
            } else {
                u64::MAX
            };
            self.next_time = if candidate < threshold {
                now
            } else {
                Instant { nanos: candidate }
            };
            self.used = 0;
            self.last_update = now;
            self.last_packet_size = None;
        }
    }
}

/// The earliest time the pacer could tell any caller to send at: both the
/// last update (returned while disabled) and the scheduled next send
/// (returned while enabled) lie at or after it.
pub open spec fn spec_time_floor(p: Pacer) -> u64 {
    if p.last_update.nanos <= p.next_time.nanos {
        p.last_update.nanos
    } else {
        p.next_time.nanos
    }
}

/// Law: `next` never answers a time earlier than the pacer's time floor.
/// Together with `lemma_spend_keeps_time_floor` this shows, by induction
/// over any sequence of calls, that an enabled pacer never schedules a send
/// earlier than the earliest `now` it has ever been handed — neither at
/// construction nor by any `spend`.
pub proof fn lemma_next_not_before_time_floor(p: Pacer, t: u64)
    requires
        spec_time_floor(p) >= t,
    ensures
        p.spec_next().nanos >= t,
{
}

/// Law: a `spend` at time `now` never lowers the pacer's time floor below
/// the smaller of the old floor and `now`; and on a disabled pacer, `next`
/// answers exactly the `now` of the last `spend` — send immediately.
pub proof fn lemma_spend_keeps_time_floor(p: Pacer, now: Instant, rtt: Duration, cwnd: usize, count: usize, t: u64)
    requires
        spec_time_floor(p) >= t,
        now.nanos >= t,
    ensures
        spec_time_floor(p.spec_spend(now, rtt, cwnd, count)) >= t,
        !p.enabled ==> p.spec_spend(now, rtt, cwnd, count).spec_next() == now,
{
}

/// A pacer state taken through a whole sequence of `spend` calls, first
/// element first.
pub open spec fn spec_spend_all(p: Pacer, calls: Seq<(Instant, Duration, usize, usize)>) -> Pacer
    decreases calls.len(),
{
    if calls.len() == 0 {
        p
    } else {
        spec_spend_all(
            p.spec_spend(calls[0].0, calls[0].1, calls[0].2, calls[0].3),
            calls.skip(1),
        )
    }
}

/// Law: for every sequence of spends, `next` never answers a time earlier
/// than the earliest time the pacer has been handed — neither the
/// construction time nor any spend's `now`. `t` stands for that earliest
/// time: it bounds the fresh pacer's floor and every `now` in the
/// sequence, and it still bounds the answer at the end.
pub proof fn lemma_next_not_before_earliest_now(
    p: Pacer,
    calls: Seq<(Instant, Duration, usize, usize)>,
    t: u64,
)
    requires
        spec_time_floor(p) >= t,
        forall|i: int| 0 <= i < calls.len() ==> (#[trigger] calls[i]).0.nanos >= t,
    ensures
        spec_time_floor(spec_spend_all(p, calls)) >= t,
        spec_spend_all(p, calls).spec_next().nanos >= t,
    decreases calls.len(),
{
    if calls.len() > 0 {
        let stepped = p.spec_spend(calls[0].0, calls[0].1, calls[0].2, calls[0].3);
        lemma_spend_keeps_time_floor(p, calls[0].0, calls[0].1, calls[0].2, calls[0].3, t);
        assert(forall|i: int|
            0 <= i < calls.skip(1).len() ==> (#[trigger] calls.skip(1)[i]).0.nanos >= t);
        lemma_next_not_before_earliest_now(stepped, calls.skip(1), t);
    }
}

/// Law: no sub-granularity wait is ever scheduled. Whenever a `spend` at
/// time `now` moves the next-send time, the new time is `now` itself (send
/// immediately), or lies at least one timer granularity after `now`, or sits
/// at the saturated end of the representable range.
pub proof fn lemma_spend_no_sub_granularity_wait(p: Pacer, now: Instant, rtt: Duration, cwnd: usize, count: usize)
    ensures
        ({
            let q = p.spec_spend(now, rtt, cwnd, count);
            ||| q.next_time == p.next_time
            ||| q.next_time == now
            ||| q.next_time.nanos >= now.nanos + GRANULARITY_NANOS
            ||| q.next_time.nanos == u64::MAX
        }),
{
}

} // verus!

