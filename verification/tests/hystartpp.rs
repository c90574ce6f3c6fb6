use congestion_core::hystartpp::HystartPP;
use congestion_core::recovery::SentPacket;
use congestion_core::time::Duration;
use congestion_core::time::Instant;

const MTU: usize = 1232;

fn pkt(pn: u64) -> SentPacket {
    SentPacket::new(pn, MTU, Instant::from_nanos(0), true)
}

fn now() -> Instant {
    Instant::from_nanos(0)
}

/// Run one measurement round: open it with the given end packet number,
/// then acknowledge eight packets up to and including it with the given
/// round-trip time.
fn round(h: &mut HystartPP, end_pn: u64, rtt: Duration) {
    h.on_sent(end_pn);
    for pn in (end_pn - 7)..=end_pn {
        h.on_ack(&pkt(pn), rtt, now());
    }
}

#[test]
fn delay_increase_exits_to_conservative_slow_start() {
    let mut h = HystartPP::new();
    // First round establishes a last-round minimum of 100ms.
    round(&mut h, 7, Duration::from_millis(100));
    // In slow start the growth proposal passes through unchanged.
    assert_eq!(h.cwnd_increase(400, MTU), 400);

    // Second round: threshold is clamp(100ms / 8, 4ms, 16ms) = 12.5ms, so a
    // current-round minimum of 112.5ms triggers the exit ...
    round(&mut h, 15, Duration::from_nanos(112_500_000));
    // ... and conservative slow start divides growth by four.
    assert_eq!(h.cwnd_increase(400, MTU), 100);
}

#[test]
fn delay_below_threshold_stays_in_slow_start() {
    let mut h = HystartPP::new();
    round(&mut h, 7, Duration::from_millis(100));
    // One nanosecond below 100ms + 12.5ms: no exit.
    round(&mut h, 15, Duration::from_nanos(112_499_999));
    assert_eq!(h.cwnd_increase(400, MTU), 400);
}

#[test]
fn five_completed_rounds_confirm_congestion_avoidance() {
    let mut h = HystartPP::new();
    round(&mut h, 7, Duration::from_millis(100));
    round(&mut h, 15, Duration::from_nanos(112_500_000));
    assert_eq!(h.cwnd_increase(400, MTU), 100);

    // The exit came with the round's close, so it counted no partial round:
    // five more completed rounds reach the limit. The delay stays above the
    // 112.5ms baseline so the exit is never taken for spurious.
    for i in 0..5u64 {
        round(&mut h, 23 + 8 * i, Duration::from_millis(120));
    }
    // Congestion avoidance: proposals pass through undamped again ...
    assert_eq!(h.cwnd_increase(400, MTU), 400);
    // ... and the detector is done: another round of sharply higher delay
    // changes nothing (were it back in slow start, this would re-enter the
    // damped phase).
    round(&mut h, 71, Duration::from_millis(300));
    assert_eq!(h.cwnd_increase(400, MTU), 400);
}

#[test]
fn minimum_below_baseline_reverts_to_slow_start() {
    let mut h = HystartPP::new();
    round(&mut h, 7, Duration::from_millis(100));
    round(&mut h, 15, Duration::from_nanos(112_500_000));
    assert_eq!(h.cwnd_increase(400, MTU), 100);

    // Open the next round but keep it from closing (acknowledgments stay
    // below the end packet): eight samples below the 112.5ms baseline
    // reveal the exit as spurious.
    h.on_sent(100);
    for pn in 16..24u64 {
        h.on_ack(&pkt(pn), Duration::from_millis(90), now());
    }
    assert_eq!(h.cwnd_increase(400, MTU), 400);
}

#[test]
fn congestion_signal_ends_the_search() {
    let mut h = HystartPP::new();
    round(&mut h, 7, Duration::from_millis(100));
    h.on_congestion();
    // A round with a large delay increase would exit slow start; after the
    // congestion signal the detector is in congestion avoidance and ignores
    // it.
    round(&mut h, 15, Duration::from_millis(300));
    assert_eq!(h.cwnd_increase(400, MTU), 400);
    round(&mut h, 23, Duration::from_millis(300));
    assert_eq!(h.cwnd_increase(400, MTU), 400);
}

#[test]
fn clamped_thresholds() {
    // A last-round minimum of 16ms gives 16/8 = 2ms, clamped up to 4ms: an
    // increase of exactly 4ms exits.
    let mut h = HystartPP::new();
    round(&mut h, 7, Duration::from_millis(16));
    round(&mut h, 15, Duration::from_millis(20));
    assert_eq!(h.cwnd_increase(400, MTU), 100);

    // A last-round minimum of 200ms gives 25ms, clamped down to 16ms: an
    // increase of 16ms exits.
    let mut g = HystartPP::new();
    round(&mut g, 7, Duration::from_millis(200));
    round(&mut g, 15, Duration::from_millis(216));
    assert_eq!(g.cwnd_increase(400, MTU), 100);
    // Below the clamped threshold nothing happens.
    let mut f = HystartPP::new();
    round(&mut f, 7, Duration::from_millis(200));
    round(&mut f, 15, Duration::from_nanos(215_999_999));
    assert_eq!(f.cwnd_increase(400, MTU), 400);
}

#[test]
fn disabled_detector_never_changes() {
    let reference = HystartPP::disabled();
    let mut h = HystartPP::disabled();
    h.on_sent(1);
    h.on_ack(&pkt(1), Duration::from_millis(100), now());
    h.on_congestion();
    assert_eq!(h, reference);
    assert_eq!(h.cwnd_increase(400, MTU), 400);
    assert_eq!(h.cwnd_increase(7, MTU), 7);
}
