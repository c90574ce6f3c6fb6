use congestion_core::recovery::SentPacket;
use congestion_core::resume::Resume;
use congestion_core::resume::SavedParameters;
use congestion_core::time::Duration;
use congestion_core::time::Instant;

const INITIAL_CWND: usize = 12_000;

fn saved() -> SavedParameters {
    SavedParameters {
        rtt: Duration::from_millis(600),
        cwnd: 3_000_000,
        enabled: true,
    }
}

fn pkt(pn: u64, len: usize) -> SentPacket {
    SentPacket::new(pn, len, Instant::from_nanos(0), true)
}

fn at_millis(ms: u64) -> Instant {
    Instant::from_nanos(0).saturating_add(Duration::from_millis(ms))
}

/// Acknowledge the whole initial window in one packet, handing the machine
/// the given live RTT: the last step of reconnaissance.
fn finish_reconnaissance(r: &mut Resume, rtt: Duration) -> (Option<usize>, Option<usize>) {
    r.on_ack(&pkt(9, INITIAL_CWND), rtt, 0, INITIAL_CWND, INITIAL_CWND, at_millis(600))
}

#[test]
fn jump_proposes_half_the_saved_window() {
    let mut r = Resume::with_paramters(saved());
    let (cwnd, ssthresh) = finish_reconnaissance(&mut r, Duration::from_millis(600));
    assert_eq!(cwnd, Some(1_500_000));
    assert_eq!(ssthresh, None);
}

#[test]
fn divergent_low_rtt_aborts_with_no_change() {
    let mut r = Resume::with_paramters(saved());
    // 100ms lies below half the saved 600ms: the snapshot is not trusted.
    let (cwnd, ssthresh) = finish_reconnaissance(&mut r, Duration::from_millis(100));
    assert_eq!(cwnd, None);
    assert_eq!(ssthresh, None);
    // The abort is final: further acknowledgments never propose a jump.
    let again = r.on_ack(
        &pkt(10, INITIAL_CWND),
        Duration::from_millis(600),
        0,
        INITIAL_CWND,
        INITIAL_CWND,
        at_millis(1200),
    );
    assert_eq!(again, (None, None));
}

#[test]
fn rtt_divergence_boundaries() {
    // A live RTT of exactly half the saved 600ms is still within bounds and
    // jumps; one nanosecond below diverges by more than a factor of two.
    let mut at_half = Resume::with_paramters(saved());
    assert_eq!(
        finish_reconnaissance(&mut at_half, Duration::from_millis(300)).0,
        Some(1_500_000)
    );
    let mut below_half = Resume::with_paramters(saved());
    assert_eq!(
        finish_reconnaissance(&mut below_half, Duration::from_nanos(299_999_999)).0,
        None
    );
    // Exactly ten times the saved RTT still jumps; one nanosecond above
    // diverges by more than a factor of ten.
    let mut at_tenfold = Resume::with_paramters(saved());
    assert_eq!(
        finish_reconnaissance(&mut at_tenfold, Duration::from_millis(6000)).0,
        Some(1_500_000)
    );
    let mut above_tenfold = Resume::with_paramters(saved());
    assert_eq!(
        finish_reconnaissance(&mut above_tenfold, Duration::from_nanos(6_000_000_001)).0,
        None
    );
}

#[test]
fn jump_no_larger_than_current_window_aborts() {
    let mut r = Resume::with_paramters(saved());
    // The strategy already reached 1.5MB on its own: jumping there is no
    // benefit.
    let (cwnd, _) = r.on_ack(
        &pkt(9, INITIAL_CWND),
        Duration::from_millis(600),
        0,
        1_500_000,
        INITIAL_CWND,
        at_millis(600),
    );
    assert_eq!(cwnd, None);
    // Aborted for good.
    let again = r.on_ack(
        &pkt(10, INITIAL_CWND),
        Duration::from_millis(600),
        0,
        INITIAL_CWND,
        INITIAL_CWND,
        at_millis(1200),
    );
    assert_eq!(again, (None, None));
}

#[test]
fn reconnaissance_accumulates_across_acks() {
    let mut r = Resume::with_paramters(saved());
    // Two small acknowledgments do not cover the initial window yet.
    let first = r.on_ack(
        &pkt(0, 4_000),
        Duration::from_millis(600),
        8_000,
        INITIAL_CWND,
        INITIAL_CWND,
        at_millis(600),
    );
    assert_eq!(first, (None, None));
    let second = r.on_ack(
        &pkt(1, 4_000),
        Duration::from_millis(600),
        4_000,
        INITIAL_CWND,
        INITIAL_CWND,
        at_millis(600),
    );
    assert_eq!(second, (None, None));
    // The third crosses the initial window and releases the jump.
    let third = r.on_ack(
        &pkt(2, 4_000),
        Duration::from_millis(600),
        0,
        INITIAL_CWND,
        INITIAL_CWND,
        at_millis(600),
    );
    assert_eq!(third, (Some(1_500_000), None));
}

/// Walk a machine through the jump and the first unvalidated send: packet
/// 10 becomes the first unvalidated packet.
fn jumped(now_ms: u64) -> Resume {
    let mut r = Resume::with_paramters(saved());
    let (cwnd, _) = finish_reconnaissance(&mut r, Duration::from_millis(600));
    assert_eq!(cwnd, Some(1_500_000));
    // The next send moves Jumping -> Unvalidated and records the packet.
    let sent = r.on_sent(
        1_500_000,
        10,
        Duration::from_millis(600),
        1_232,
        false,
        at_millis(now_ms),
    );
    assert_eq!(sent, None);
    r
}

#[test]
fn full_window_enters_validation_with_flight_size() {
    let mut r = jumped(600);
    // The window fills: flight reaches the window; the proven pipe of
    // 12000 bytes is below the 1.5MB flight, so validation starts with the
    // window at the flight size.
    let proposal = r.on_sent(
        1_500_000,
        900,
        Duration::from_millis(600),
        1_500_000,
        false,
        at_millis(900),
    );
    assert_eq!(proposal, Some(1_500_000));
    // Acknowledging the last unvalidated packet completes to Normal.
    let done = r.on_ack(
        &pkt(900, 1_232),
        Duration::from_millis(600),
        1_500_000,
        1_500_000,
        INITIAL_CWND,
        at_millis(1200),
    );
    assert_eq!(done, (None, None));
    // Normal is terminal: nothing reacts any more.
    assert_eq!(r.on_ecn(at_millis(1300)), None);
    assert_eq!(r.on_packetloss(at_millis(1300)), None);
}

#[test]
fn ack_of_first_unvalidated_packet_enters_validation() {
    let mut r = jumped(600);
    let (cwnd, ssthresh) = r.on_ack(
        &pkt(10, 1_232),
        Duration::from_millis(600),
        800_000,
        1_500_000,
        INITIAL_CWND,
        at_millis(900),
    );
    // pipesize 12000 + 1232 is below the 800000 in flight: validate there.
    assert_eq!(cwnd, Some(800_000));
    assert_eq!(ssthresh, None);
}

#[test]
fn rate_limited_sender_completes_directly_to_normal() {
    let mut r = jumped(600);
    // Only 5000 bytes are in flight when the first unvalidated packet is
    // acknowledged; the proven pipe of 12000 + 1232 exceeds it, so there is
    // nothing left to validate and the window resets to the pipe.
    let (cwnd, _) = r.on_ack(
        &pkt(10, 1_232),
        Duration::from_millis(600),
        5_000,
        1_500_000,
        INITIAL_CWND,
        at_millis(900),
    );
    assert_eq!(cwnd, Some(13_232));
    // Terminal.
    assert_eq!(r.on_ecn(at_millis(1000)), None);
}

#[test]
fn a_round_trip_without_the_ack_enters_validation() {
    let mut r = jumped(600);
    // An acknowledgment of an older packet, 600ms (one RTT) after the
    // unvalidated phase began: validation starts anyway.
    let (cwnd, _) = r.on_ack(
        &pkt(5, 1_232),
        Duration::from_millis(600),
        700_000,
        1_500_000,
        INITIAL_CWND,
        at_millis(1200),
    );
    assert_eq!(cwnd, Some(700_000));
}

#[test]
fn congestion_while_unvalidated_retreats_to_half_the_pipe() {
    let mut r = jumped(600);
    // Grow the pipe with an acknowledgment below the first unvalidated
    // packet, well within the round trip.
    let grown = r.on_ack(
        &pkt(5, 8_000),
        Duration::from_millis(600),
        800_000,
        1_500_000,
        INITIAL_CWND,
        at_millis(700),
    );
    assert_eq!(grown, (None, None));
    // Loss: retreat proposes half the proven pipe (12000 + 8000) / 2.
    assert_eq!(r.on_packetloss(at_millis(800)), Some(10_000));
    // Draining: acknowledgments keep growing the pipe until the last
    // unvalidated packet is acknowledged; no send happened during the
    // unvalidated phase, so that marker is still zero and this
    // acknowledgment completes the retreat, surfacing the pipe as the new
    // slow-start threshold.
    let (cwnd, ssthresh) = r.on_ack(
        &pkt(10, 2_000),
        Duration::from_millis(600),
        400_000,
        750_000,
        INITIAL_CWND,
        at_millis(900),
    );
    assert_eq!(cwnd, None);
    assert_eq!(ssthresh, Some(22_000));
    // Terminal afterwards.
    assert_eq!(r.on_packetloss(at_millis(1000)), None);
}

#[test]
fn ecn_while_reconnaissance_abandons_the_attempt() {
    let mut r = Resume::with_paramters(saved());
    assert_eq!(r.on_ecn(at_millis(100)), None);
    // The attempt is gone: covering the initial window proposes nothing.
    let (cwnd, ssthresh) = finish_reconnaissance(&mut r, Duration::from_millis(600));
    assert_eq!(cwnd, None);
    assert_eq!(ssthresh, None);
}

#[test]
fn disabled_machine_never_changes() {
    let reference = Resume::disabled();
    let mut r = Resume::disabled();
    assert_eq!(
        r.on_ack(
            &pkt(0, 10_000),
            Duration::from_millis(600),
            0,
            INITIAL_CWND,
            INITIAL_CWND,
            at_millis(600)
        ),
        (None, None)
    );
    assert_eq!(
        r.on_sent(INITIAL_CWND, 1, Duration::from_millis(600), 0, false, at_millis(600)),
        None
    );
    assert_eq!(r.on_ecn(at_millis(600)), None);
    assert_eq!(r.on_packetloss(at_millis(600)), None);
    assert_eq!(r, reference);

    // Saved parameters that are themselves disabled behave the same way.
    let off = SavedParameters {
        rtt: Duration::from_millis(600),
        cwnd: 3_000_000,
        enabled: false,
    };
    let reference_off = Resume::with_paramters(off);
    let mut s = Resume::with_paramters(off);
    assert_eq!(
        s.on_ack(
            &pkt(0, 100_000),
            Duration::from_millis(600),
            0,
            INITIAL_CWND,
            INITIAL_CWND,
            at_millis(600)
        ),
        (None, None)
    );
    assert_eq!(s.on_packetloss(at_millis(700)), None);
    assert_eq!(s, reference_off);
}
