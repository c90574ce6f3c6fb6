//! The orchestrator: composes a pluggable congestion-control strategy with
//! the pacer, the HyStart++ detector and the careful-resume machine. It is
//! the sole interface the rest of the transport stack uses to react to
//! sent, acknowledged, lost and ECN-marked packets and to ask when the next
//! packet is allowed to leave.

use vstd::prelude::*;
use crate::hystartpp::HystartPP;
use crate::pace::Pacer;
use crate::recovery::SentPacket;
use crate::resume::Resume;
use crate::resume::SavedParameters;
use crate::resume::State;
use crate::rtt::RttEstimate;
use crate::time::Duration;
use crate::time::Instant;

verus! {

/// Packets of reference size that fit in one pacing burst: the pacer's
/// burst budget is this many times the usable packet size.
pub const BURST_PACKETS: usize = 10;

/// The capability interface of a congestion-control strategy (a classic
/// window algorithm such as NewReno or Cubic). The concrete algorithms live
/// outside this core and are consumed only through this interface; the
/// `spec_*` functions are the abstract readings the contracts talk about,
/// and every implementation must honour the few promises made here: the
/// getters report their abstract values, `set_cwnd` establishes the window
/// it is given, `set_ssthresh` leaves the window alone, and the usable
/// packet size is never zero.
pub trait CongestionControl: Sized {
    /// The current congestion window, in bytes.
    spec fn spec_cwnd(&self) -> usize;

    /// The window capacity not yet used by bytes in flight.
    spec fn spec_cwnd_avail(&self) -> usize;

    /// The initial congestion window, in bytes.
    spec fn spec_cwnd_initial(&self) -> usize;

    /// The floor under the congestion window, in bytes.
    spec fn spec_cwnd_min(&self) -> usize;

    /// Bytes sent but neither acknowledged nor declared lost.
    spec fn spec_bytes_in_flight(&self) -> usize;

    /// The usable packet size found by path-MTU discovery, in bytes.
    spec fn spec_plpmtu(&self) -> usize;

    /// Whether the next packet to be sent counts as a recovery packet.
    spec fn spec_recovery_packet(&self) -> bool;

    fn cwnd(&self) -> (r: usize)
        ensures
            r == self.spec_cwnd(),
    ;

    fn cwnd_avail(&self) -> (r: usize)
        ensures
            r == self.spec_cwnd_avail(),
    ;

    fn cwnd_initial(&self) -> (r: usize)
        ensures
            r == self.spec_cwnd_initial(),
    ;

    fn cwnd_min(&self) -> (r: usize)
        ensures
            r == self.spec_cwnd_min(),
    ;

    fn bytes_in_flight(&self) -> (r: usize)
        ensures
            r == self.spec_bytes_in_flight(),
    ;

    fn plpmtu(&self) -> (r: usize)
        ensures
            r == self.spec_plpmtu(),
            r >= 1,
    ;

    fn recovery_packet(&self) -> (r: bool)
        ensures
            r == self.spec_recovery_packet(),
    ;

    /// Replace the congestion window.
    fn set_cwnd(&mut self, cwnd: usize, now: Instant)
        ensures
            final(self).spec_cwnd() == cwnd,
    ;

    /// Replace the slow-start threshold; the window itself stays.
    fn set_ssthresh(&mut self, ssthresh: usize)
        ensures
            final(self).spec_cwnd() == old(self).spec_cwnd(),
    ;

    /// Attach the slow-start exit detector the strategy consults for its
    /// window growth.
    fn set_hystart(&mut self, hystart: HystartPP);

    fn on_packet_sent(&mut self, pkt: &SentPacket, now: Instant);

    fn on_packets_acked(&mut self, acked_pkts: &[SentPacket], rtt_est: &RttEstimate, now: Instant);

    /// Returns true if the congestion window was reduced.
    fn on_packets_lost(
        &mut self,
        first_rtt_sample_time: Option<Instant>,
        prev_largest_acked_sent: Option<Instant>,
        pto: Duration,
        lost_packets: &[SentPacket],
        now: Instant,
    ) -> bool;

    /// Returns true if the congestion window was reduced.
    fn on_ecn_ce_received(&mut self, largest_acked_pkt: &SentPacket, now: Instant) -> bool;

    /// Drop one packet from the in-flight accounting without a congestion
    /// reaction.
    fn discard(&mut self, pkt: &SentPacket, now: Instant);

    /// On path migration, drop all bytes in flight for the abandoned path.
    fn discard_in_flight(&mut self, now: Instant);

    /// Feed acknowledged packets to path-MTU discovery.
    fn pmtud_on_packets_acked(&mut self, acked_pkts: &[SentPacket], now: Instant);

    /// Feed lost packets to path-MTU discovery; this may resize probes, so
    /// it must run after the congestion reaction that ignores probes by
    /// their size.
    fn pmtud_on_packets_lost(&mut self, lost_packets: &[SentPacket], now: Instant);
}

/// Whether running the careful-resume acknowledgment rule over `acks` in
/// order, starting from `start`, can end in `machine`. The flight size,
/// window and initial window fed into each step are whatever the strategy
/// reported at that moment, so they are existentially quantified per step.
pub open spec fn resume_ack_fold_reaches(
    start: Resume,
    acks: Seq<SentPacket>,
    rtt: Duration,
    now: Instant,
    machine: Resume,
) -> bool
    decreases acks.len(),
{
    if acks.len() == 0 {
        machine == start
    } else {
        exists|flightsize: usize, cwnd: usize, initial_cwnd: usize|
            resume_ack_fold_reaches(
                (#[trigger] start.spec_on_ack(acks[0], rtt, flightsize, cwnd, initial_cwnd, now)).0,
                acks.skip(1),
                rtt,
                now,
                machine,
            )
    }
}

/// Appending one acknowledgment to a reachable fold keeps it reachable: the
/// machine it ends in is the old end stepped on the appended packet.
proof fn lemma_resume_ack_fold_extend(
    start: Resume,
    acks: Seq<SentPacket>,
    rtt: Duration,
    now: Instant,
    machine: Resume,
    ack: SentPacket,
    flightsize: usize,
    cwnd: usize,
    initial_cwnd: usize,
)
    requires
        resume_ack_fold_reaches(start, acks, rtt, now, machine),
    ensures
        resume_ack_fold_reaches(
            start,
            acks.push(ack),
            rtt,
            now,
            machine.spec_on_ack(ack, rtt, flightsize, cwnd, initial_cwnd, now).0,
        ),
    decreases acks.len(),
{
    let pushed = acks.push(ack);
    let ended = machine.spec_on_ack(ack, rtt, flightsize, cwnd, initial_cwnd, now).0;
    if acks.len() == 0 {
        assert(pushed[0] == ack);
        assert(pushed.skip(1) =~= Seq::<SentPacket>::empty());
        assert(resume_ack_fold_reaches(
            (start.spec_on_ack(pushed[0], rtt, flightsize, cwnd, initial_cwnd, now)).0,
            pushed.skip(1),
            rtt,
            now,
            ended,
        ));
    } else {
        let (f0, c0, i0): (usize, usize, usize) = choose|f0: usize, c0: usize, i0: usize|
            resume_ack_fold_reaches(
                (#[trigger] start.spec_on_ack(acks[0], rtt, f0, c0, i0, now)).0,
                acks.skip(1),
                rtt,
                now,
                machine,
            );
        lemma_resume_ack_fold_extend(
            start.spec_on_ack(acks[0], rtt, f0, c0, i0, now).0,
            acks.skip(1),
            rtt,
            now,
            machine,
            ack,
            flightsize,
            cwnd,
            initial_cwnd,
        );
        assert(pushed[0] == acks[0]);
        assert(pushed.skip(1) =~= acks.skip(1).push(ack));
        assert(resume_ack_fold_reaches(
            (start.spec_on_ack(pushed[0], rtt, f0, c0, i0, now)).0,
            pushed.skip(1),
            rtt,
            now,
            ended,
        ));
    }
}

/// The orchestrator owning one congestion-control strategy, a pacer and a
/// careful-resume machine.
#[derive(Debug)]
pub struct PacketSender<C: CongestionControl> {
    pub cc: C,
    pub pacer: Pacer,
    pub resume: Resume,
}

impl<C: CongestionControl> PacketSender<C> {
    /// Build a sender around the strategy `cc`. Pacing and the slow-start
    /// heuristic are explicit configuration; careful resume runs only when
    /// saved parameters are supplied (and themselves enabled). The pacer
    /// starts with a burst budget of `BURST_PACKETS` packets of the
    /// strategy's current usable packet size.
    pub fn new(
        cc: C,
        pacing_enabled: bool,
        hystart_enabled: bool,
        resume: Option<&SavedParameters>,
        now: Instant,
    ) -> (r: Self)
        ensures
            ({
                let mtu = cc.spec_plpmtu();
                let capacity = if mtu * BURST_PACKETS <= usize::MAX {
                    (mtu * BURST_PACKETS) as usize
                } else {
                    usize::MAX
                };
                r.pacer == (Pacer {
                    enabled: pacing_enabled,
                    last_update: now,
                    next_time: now,
                    capacity,
                    used: 0,
                    mtu,
                    last_packet_size: None,
                })
            }),
            r.pacer.wf(),
            resume is None ==> !r.resume.enabled,
            resume matches Some(s) ==> r.resume == (Resume {
                enabled: s.enabled,
                state: State::Reconnaissance { acked_bytes: 0 },
                cwnd: 0,
                pipesize: 0,
                first_unvalidated_pkt: 0,
                last_unvalidated_pkt: 0,
                ssthresh: None,
                saved: *s,
            }),
    {
        let mtu: usize = cc.plpmtu();
        let capacity: usize = if mtu <= usize::MAX / BURST_PACKETS {
            mtu * BURST_PACKETS
        } else {
            usize::MAX
        };
        assert(capacity >= mtu) by (nonlinear_arith)
            requires
                mtu >= 1,
                capacity == if mtu as int <= usize::MAX as int / BURST_PACKETS as int {
                    mtu * BURST_PACKETS
                } else {
                    usize::MAX as int
                },
        ;

        let mut cc = cc;
        cc.set_hystart(
            if hystart_enabled {
                HystartPP::new()
            } else {
                HystartPP::disabled()
            },
        );

        let resume_machine: Resume = match resume {
            Some(saved) => Resume::with_paramters(*saved),
            None => Resume::disabled(),
        };

        PacketSender {
            cc,
            pacer: Pacer::new(pacing_enabled, now, capacity, mtu),
            resume: resume_machine,
        }
    }

    /// The strategy's current congestion window.
    pub fn cwnd(&self) -> (r: usize)
        ensures
            r == self.cc.spec_cwnd(),
    {
        self.cc.cwnd()
    }

    /// The strategy's available window.
    pub fn cwnd_avail(&self) -> (r: usize)
        ensures
            r == self.cc.spec_cwnd_avail(),
    {
        self.cc.cwnd_avail()
    }

    /// The strategy's window floor.
    pub fn cwnd_min(&self) -> (r: usize)
        ensures
            r == self.cc.spec_cwnd_min(),
    {
        self.cc.cwnd_min()
    }

    /// Refresh the pacer's reference packet size from path-MTU discovery.
    fn maybe_update_pacer_mtu(&mut self)
        ensures
            final(self).cc == old(self).cc,
            final(self).resume == old(self).resume,
            final(self).pacer == (Pacer { mtu: old(self).cc.spec_plpmtu(), ..old(self).pacer }),
            old(self).pacer.wf() ==> final(self).pacer.wf(),
    {
        let current_mtu: usize = self.cc.plpmtu();
        if current_mtu != self.pacer.mtu() {
            self.pacer.set_mtu(current_mtu);
        }
    }

    /// Ask the resume machine about an acknowledged packet and apply
    /// whatever it proposes to the strategy: a proposed window is installed
    /// and the pacer refreshed to it, a proposed slow-start threshold is
    /// forwarded.
    fn apply_resume_on_ack(
        &mut self,
        ack: &SentPacket,
        rtt: Duration,
        flightsize: usize,
        cwnd: usize,
        initial_cwnd: usize,
        now: Instant,
    )
        ensures
            ({
                let (machine, proposal, thresh) = old(self).resume.spec_on_ack(
                    *ack,
                    rtt,
                    flightsize,
                    cwnd,
                    initial_cwnd,
                    now,
                );
                &&& final(self).resume == machine
                &&& proposal matches Some(w) ==> final(self).cc.spec_cwnd() == w
                    && final(self).pacer == old(self).pacer.spec_spend(now, rtt, w, 0)
                &&& proposal is None ==> final(self).pacer == old(self).pacer
                &&& proposal is None && thresh is None ==> final(self).cc == old(self).cc
            }),
            old(self).pacer.wf() ==> final(self).pacer.wf(),
    {
        let r: (Option<usize>, Option<usize>) =
            self.resume.on_ack(ack, rtt, flightsize, cwnd, initial_cwnd, now);
        if let Some(next_cwnd) = r.0 {
            self.cc.set_cwnd(next_cwnd, now);
            // Refresh the pacer to the new window.
            self.pacer.spend(now, rtt, next_cwnd, 0);
        }
        if let Some(next_ssthresh) = r.1 {
            self.cc.set_ssthresh(next_ssthresh);
        }
    }

    /// React to a batch of acknowledged packets: each one first runs
    /// through careful resume (whose window and threshold proposals reach
    /// the strategy before it learns of the acknowledgment), then the batch
    /// goes to the strategy and to path-MTU discovery, and the pacer's
    /// reference packet size is refreshed. The final resume machine is
    /// exactly the fold of its acknowledgment rule over the whole batch in
    /// order, under the strategy readings taken between steps.
    pub fn on_packets_acked(&mut self, acked_pkts: &[SentPacket], rtt_est: &RttEstimate, now: Instant)
        ensures
            resume_ack_fold_reaches(old(self).resume, acked_pkts@, rtt_est.estimate, now, final(self).resume),
            final(self).resume.enabled == old(self).resume.enabled,
            final(self).resume.saved == old(self).resume.saved,
            old(self).resume.state is Normal ==> final(self).resume.state is Normal,
            !old(self).resume.enabled ==> final(self).resume == old(self).resume,
            final(self).pacer.mtu == final(self).cc.spec_plpmtu(),
            final(self).pacer.enabled == old(self).pacer.enabled,
            final(self).pacer.capacity == old(self).pacer.capacity,
            !old(self).resume.enabled ==> final(self).pacer == (Pacer {
                mtu: final(self).cc.spec_plpmtu(),
                ..old(self).pacer
            }),
            acked_pkts@.len() == 0 ==> final(self).resume == old(self).resume
                && final(self).pacer == (Pacer {
                    mtu: final(self).cc.spec_plpmtu(),
                    ..old(self).pacer
                }),
            old(self).pacer.wf() ==> final(self).pacer.wf(),
    {
        let ghost pre = *self;
        proof {
            assert(acked_pkts@.take(0) =~= Seq::<SentPacket>::empty());
        }
        let mut i: usize = 0;
        while i < acked_pkts.len()
            invariant
                i <= acked_pkts@.len(),
                resume_ack_fold_reaches(pre.resume, acked_pkts@.take(i as int), rtt_est.estimate, now, self.resume),
                self.resume.enabled == pre.resume.enabled,
                self.resume.saved == pre.resume.saved,
                pre.resume.state is Normal ==> self.resume.state is Normal,
                !pre.resume.enabled ==> self.resume == pre.resume,
                !pre.resume.enabled ==> self.pacer == pre.pacer && self.cc == pre.cc,
                self.pacer.enabled == pre.pacer.enabled,
                self.pacer.capacity == pre.pacer.capacity,
                self.pacer.mtu == pre.pacer.mtu,
                acked_pkts@.len() == 0 ==> self.resume == pre.resume && self.pacer == pre.pacer,
                pre.pacer.wf() ==> self.pacer.wf(),
            decreases acked_pkts.len() - i,
        {
            let ghost resume_before = self.resume;
            let ack = &acked_pkts[i];
            let rtt: Duration = rtt_est.estimate();
            let flightsize: usize = self.cc.bytes_in_flight();
            let cwnd: usize = self.cc.cwnd();
            let initial_cwnd: usize = self.cc.cwnd_initial();
            self.apply_resume_on_ack(ack, rtt, flightsize, cwnd, initial_cwnd, now);
            proof {
                lemma_resume_ack_fold_extend(
                    pre.resume,
                    acked_pkts@.take(i as int),
                    rtt,
                    now,
                    resume_before,
                    acked_pkts@[i as int],
                    flightsize,
                    cwnd,
                    initial_cwnd,
                );
                assert(acked_pkts@.take(i + 1)
                    =~= acked_pkts@.take(i as int).push(acked_pkts@[i as int]));
            }
            i = i + 1;
        }
        proof {
            assert(acked_pkts@.take(acked_pkts@.len() as int) =~= acked_pkts@);
        }
        self.cc.on_packets_acked(acked_pkts, rtt_est, now);
        self.cc.pmtud_on_packets_acked(acked_pkts, now);
        self.maybe_update_pacer_mtu();
    }

    /// React to lost packets. Returns true if the strategy reduced the
    /// window; in that case a retreat window proposed by careful resume is
    /// applied on top. Path-MTU discovery hears of the loss afterwards
    /// (probe-sized packets must be excluded from the congestion reaction
    /// that already happened), and the pacer's reference packet size is
    /// refreshed.
    pub fn on_packets_lost(
        &mut self,
        first_rtt_sample_time: Option<Instant>,
        prev_largest_acked_sent: Option<Instant>,
        pto: Duration,
        lost_packets: &[SentPacket],
        now: Instant,
    ) -> (r: bool)
        ensures
            r ==> final(self).resume == old(self).resume.spec_on_congestion().0,
            !r ==> final(self).resume == old(self).resume,
            final(self).resume.enabled == old(self).resume.enabled,
            final(self).resume.saved == old(self).resume.saved,
            old(self).resume.state is Normal ==> final(self).resume.state is Normal,
            !old(self).resume.enabled ==> final(self).resume == old(self).resume,
            final(self).pacer == (Pacer { mtu: final(self).cc.spec_plpmtu(), ..old(self).pacer }),
            old(self).pacer.wf() ==> final(self).pacer.wf(),
    {
        let ret: bool = self.cc.on_packets_lost(
            first_rtt_sample_time,
            prev_largest_acked_sent,
            pto,
            lost_packets,
            now,
        );

        if ret {
            if let Some(next_cwnd) = self.resume.on_packetloss(now) {
                self.cc.set_cwnd(next_cwnd, now);
            }
        }

        self.cc.pmtud_on_packets_lost(lost_packets, now);
        self.maybe_update_pacer_mtu();
        ret
    }

    /// React to an ECN congestion-experienced mark: a retreat window
    /// proposed by careful resume is applied first, then the strategy hears
    /// of the mark. Returns true if the strategy reduced the window.
    pub fn on_ecn_ce_received(&mut self, largest_acked_pkt: &SentPacket, now: Instant) -> (r: bool)
        ensures
            final(self).resume == old(self).resume.spec_on_congestion().0,
            final(self).resume.enabled == old(self).resume.enabled,
            final(self).resume.saved == old(self).resume.saved,
            old(self).resume.state is Normal ==> final(self).resume.state is Normal,
            !old(self).resume.enabled ==> final(self).resume == old(self).resume,
            final(self).pacer == old(self).pacer,
    {
        if let Some(next_cwnd) = self.resume.on_ecn(now) {
            self.cc.set_cwnd(next_cwnd, now);
        }

        self.cc.on_ecn_ce_received(largest_acked_pkt, now)
    }

    /// Drop one packet from the strategy's in-flight accounting.
    pub fn discard(&mut self, pkt: &SentPacket, now: Instant)
        ensures
            final(self).pacer == old(self).pacer,
            final(self).resume == old(self).resume,
    {
        self.cc.discard(pkt, now);
    }

    /// When the connection migrates, the strategy for the previously active
    /// path drops all bytes in flight.
    pub fn discard_in_flight(&mut self, now: Instant)
        ensures
            final(self).pacer == old(self).pacer,
            final(self).resume == old(self).resume,
    {
        self.cc.discard_in_flight(now);
    }

    /// Ask the resume machine about a sent packet and install a proposed
    /// window on the strategy.
    fn apply_resume_on_sent(
        &mut self,
        cwnd: usize,
        largest_pkt_sent: u64,
        rtt: Duration,
        flightsize: usize,
        now: Instant,
    )
        ensures
            ({
                let (machine, proposal) = old(self).resume.spec_on_sent(
                    cwnd,
                    largest_pkt_sent,
                    rtt,
                    flightsize,
                    false,
                    now,
                );
                &&& final(self).resume == machine
                &&& proposal matches Some(w) ==> final(self).cc.spec_cwnd() == w
                &&& proposal is None ==> final(self).cc == old(self).cc
            }),
            final(self).pacer == old(self).pacer,
    {
        if let Some(jump) = self.resume.on_sent(cwnd, largest_pkt_sent, rtt, flightsize, false, now) {
            self.cc.set_cwnd(jump, now);
        }
    }

    /// React to a sent packet: an ack-eliciting packet spends pacer credit
    /// at its send time against the window the strategy reported before the
    /// send; the strategy is always notified; and a window jump proposed by
    /// careful resume is installed afterwards. The resume machine always
    /// hears of the send: for some window `c` and flight size `f` read from
    /// the strategy after its own sent-packet processing, the final machine
    /// is exactly its sent-packet step on `(c, pkt.pn, rtt, f)`, and a
    /// window that step proposes is the strategy's final window.
    pub fn on_packet_sent(&mut self, pkt: &SentPacket, rtt: Duration, now: Instant)
        ensures
            pkt.ack_eliciting ==> final(self).pacer == old(self).pacer.spec_spend(
                pkt.time_sent,
                rtt,
                old(self).cc.spec_cwnd(),
                pkt.len,
            ),
            !pkt.ack_eliciting ==> final(self).pacer == old(self).pacer,
            old(self).pacer.wf() ==> final(self).pacer.wf(),
            exists|c: usize, f: usize|
                {
                    let step = #[trigger] old(self).resume.spec_on_sent(c, pkt.pn, rtt, f, false, now);
                    &&& final(self).resume == step.0
                    &&& (step.1 matches Some(w) ==> final(self).cc.spec_cwnd() == w)
                },
            final(self).resume.enabled == old(self).resume.enabled,
            final(self).resume.saved == old(self).resume.saved,
            old(self).resume.state is Normal ==> final(self).resume.state is Normal,
            !old(self).resume.enabled ==> final(self).resume == old(self).resume,
    {
        let ghost pre = *self;
        if pkt.ack_eliciting() {
            let cwnd: usize = self.cc.cwnd();
            self.pacer.spend(pkt.time_sent(), rtt, cwnd, pkt.len());
        }
        self.cc.on_packet_sent(pkt, now);

        let cwnd_after: usize = self.cc.cwnd();
        let flightsize: usize = self.cc.bytes_in_flight();
        self.apply_resume_on_sent(cwnd_after, pkt.pn(), rtt, flightsize, now);
        proof {
            let step = pre.resume.spec_on_sent(cwnd_after, pkt.pn, rtt, flightsize, false, now);
            assert(self.resume == step.0);
        }
    }

    /// When the next packet is allowed to leave, or nothing when no bytes
    /// are in flight and no pacing constraint applies.
    pub fn next_paced(&self, rtt: Duration) -> (r: Option<Instant>)
        ensures
            r == if self.cc.spec_bytes_in_flight() > 0 {
                Some(self.pacer.spec_next())
            } else {
                None::<Instant>
            },
    {
        // Only pace if there are bytes in flight.
        if self.cc.bytes_in_flight() > 0 {
            Some(self.pacer.next(rtt, self.cc.cwnd()))
        } else {
            None
        }
    }

    /// Whether the next packet counts as a recovery packet.
    pub fn recovery_packet(&self) -> (r: bool)
        ensures
            r == self.cc.spec_recovery_packet(),
    {
        self.cc.recovery_packet()
    }
}

} // verus!
