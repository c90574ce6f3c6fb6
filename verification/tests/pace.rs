use congestion_core::pace::Pacer;
use congestion_core::time::Duration;
use congestion_core::time::Instant;

const RTT_MILLIS: u64 = 1000;
const PACKET: usize = 1000;
const CWND: usize = PACKET * 10;

fn now() -> Instant {
    Instant::from_nanos(1_000_000_000)
}

fn rtt() -> Duration {
    Duration::from_millis(RTT_MILLIS)
}

#[test]
fn even() {
    let n = now();
    let mut p = Pacer::new(true, n, PACKET, PACKET);
    assert_eq!(p.next(rtt(), CWND), n);
    p.spend(n, rtt(), CWND, PACKET);
    assert_eq!(p.next(rtt(), CWND), n.saturating_add(rtt().div(20)));
}

#[test]
fn backwards_in_time() {
    let n = now();
    let mut p = Pacer::new(true, n.saturating_add(rtt()), PACKET, PACKET);
    assert_eq!(p.next(rtt(), CWND), n.saturating_add(rtt()));
    // Now spend some credit in the past using a time machine.
    p.spend(n, rtt(), CWND, PACKET);
    assert_eq!(p.next(rtt(), CWND), n.saturating_add(rtt().div(20)));
}

#[test]
fn pacing_disabled() {
    let n = now();
    let mut p = Pacer::new(false, n, PACKET, PACKET);
    assert_eq!(p.next(rtt(), CWND), n);
    p.spend(n, rtt(), CWND, PACKET);
    assert_eq!(p.next(rtt(), CWND), n);
}

#[test]
fn send_immediately_below_granularity() {
    let short_rtt = Duration::from_millis(10);
    let n = now();
    let mut p = Pacer::new(true, n, PACKET, PACKET);
    assert_eq!(p.next(short_rtt, CWND), n);
    p.spend(n, short_rtt, CWND, PACKET);
    assert_eq!(
        p.next(short_rtt, CWND),
        n,
        "Expect packet to be sent immediately, instead of being paced below timer granularity"
    );
}

#[test]
fn disabled_pacer_tracks_last_spend_time() {
    let n = now();
    let mut p = Pacer::new(false, n, PACKET, PACKET);
    let later = n.saturating_add(rtt());
    p.spend(later, rtt(), CWND, PACKET);
    assert_eq!(p.next(rtt(), CWND), later);
}

#[test]
fn next_never_before_earliest_spend() {
    // Spend twice, the second time in the past; the answer never drops
    // below the earliest time the pacer has seen.
    let n = now();
    let earlier = Instant::from_nanos(500_000_000);
    let mut p = Pacer::new(true, n, PACKET, PACKET);
    p.spend(n, rtt(), CWND, PACKET);
    p.spend(earlier, rtt(), CWND, PACKET);
    let scheduled = p.next(rtt(), CWND);
    assert!(scheduled.nanos >= earlier.nanos);
    // The backwards spend resets the bucket to the earlier time and then
    // schedules one burst after it.
    assert_eq!(scheduled, earlier.saturating_add(rtt().div(20)));
}

#[test]
fn size_change_starts_a_new_burst_schedule() {
    let n = now();
    // Burst capacity of three packets: one full-size packet does not fill
    // it, so nothing is scheduled ...
    let mut p = Pacer::new(true, n, 3 * PACKET, PACKET);
    p.spend(n, rtt(), CWND, PACKET);
    assert_eq!(p.next(rtt(), CWND), n);
    // ... but a differently-sized packet must not inherit the stale
    // schedule: 1500 bytes over a 10000-byte window paced at twice the
    // window per RTT gives a 75ms wait.
    p.spend(n, rtt(), CWND, PACKET / 2);
    assert_eq!(
        p.next(rtt(), CWND),
        n.saturating_add(Duration::from_millis(75))
    );
}

#[test]
fn zero_byte_spend_refreshes_schedule() {
    let n = now();
    let mut p = Pacer::new(true, n, 3 * PACKET, PACKET);
    p.spend(n, rtt(), CWND, PACKET);
    assert_eq!(p.next(rtt(), CWND), n);
    // A zero-byte spend forces a refresh: the pending debt of one packet is
    // scheduled out at the current rate (50ms for 1000 bytes).
    p.spend(n, rtt(), CWND, 0);
    assert_eq!(
        p.next(rtt(), CWND),
        n.saturating_add(Duration::from_millis(50))
    );
}

#[test]
fn zero_window_falls_back_to_raw_rtt() {
    let n = now();
    let mut p = Pacer::new(true, n, PACKET, PACKET);
    p.spend(n, rtt(), 0, PACKET);
    assert_eq!(p.next(rtt(), 0), n.saturating_add(rtt()));
}

#[test]
fn mtu_updates() {
    let n = now();
    let mut p = Pacer::new(true, n, 10 * PACKET, PACKET);
    assert_eq!(p.mtu(), PACKET);
    p.set_mtu(1500);
    assert_eq!(p.mtu(), 1500);
}

#[test]
fn idle_longer_than_a_burst_resets_the_bucket() {
    let n = now();
    let mut p = Pacer::new(true, n, PACKET, PACKET);
    p.spend(n, rtt(), CWND, PACKET);
    assert_eq!(p.next(rtt(), CWND), n.saturating_add(rtt().div(20)));
    // One full RTT of idleness exceeds the burst duration, so the next
    // spend starts from a clean bucket and the single packet fills it
    // again: scheduled one burst after the new time.
    let later = n.saturating_add(rtt());
    p.spend(later, rtt(), CWND, PACKET);
    assert_eq!(p.next(rtt(), CWND), later.saturating_add(rtt().div(20)));
}
