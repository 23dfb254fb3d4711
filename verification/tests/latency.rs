use cider_core::clock::MonotonicClock;
use cider_core::latency::{LatencyTracker, PeerLatency, DEFAULT_LATENCY_MS};

const MS: u64 = 1_000_000;

#[test]
fn test_averaging() {
    let mut peer_latency = PeerLatency::new();

    peer_latency.add_sample(100);
    peer_latency.add_sample(200);
    peer_latency.add_sample(150);

    // Average should be (100+200+150)/3 = 150, one-way = 75
    assert_eq!(peer_latency.avg_rtt_ms(), 150);
    assert_eq!(peer_latency.one_way_latency_ms(), 75);
}

#[test]
fn latency_tracker_measures_round_trips() {
    let mut tracker = LatencyTracker::new();
    tracker.set_host("host123".to_string());

    // No measurements yet - should return default
    assert_eq!(tracker.host_latency_ms(), DEFAULT_LATENCY_MS);

    // A ping/pong with 50ms RTT
    let ts = tracker.create_ping_at(1_700_000_000_000, 10 * MS);
    assert_eq!(ts, 1_700_000_000_000);
    let rtt = tracker.handle_pong_at("host123", ts, 60 * MS);
    assert_eq!(rtt, Some(50));
    assert_eq!(tracker.host_latency_ms(), 25);
    assert_eq!(tracker.peer_latency_ms("host123"), 25);
    assert_eq!(tracker.peer_latency_ms("somebody"), DEFAULT_LATENCY_MS);

    // The ping is consumed.
    assert_eq!(tracker.handle_pong_at("host123", ts, 70 * MS), None);
    assert_eq!(tracker.host_latency_ms(), 25);
}

#[test]
fn latency_tracker_reads_its_clock() {
    let mut tracker = LatencyTracker::new();
    tracker.set_host("host123".to_string());
    let ts = tracker.create_ping();
    let rtt = tracker.handle_pong("host123", ts);
    assert!(rtt.is_some());
    assert!(rtt.unwrap() < 10_000);
    assert_eq!(tracker.handle_pong("host123", ts), None);
}

#[test]
fn unknown_pong_measures_nothing() {
    let mut tracker = LatencyTracker::new();
    tracker.set_host("host".to_string());
    assert_eq!(tracker.handle_pong_at("host", 42, 5 * MS), None);
    assert_eq!(tracker.host_latency_ms(), DEFAULT_LATENCY_MS);
}

#[test]
fn only_the_latest_five_round_trips_count() {
    let mut latency = PeerLatency::new();
    assert_eq!(latency.avg_rtt_ms(), 20);
    assert_eq!(latency.one_way_latency_ms(), 10);
    for rtt in [1000, 10, 20, 30, 40, 50] {
        latency.add_sample(rtt);
    }
    // The first sample is gone: (10 + 20 + 30 + 40 + 50) / 5.
    assert_eq!(latency.avg_rtt_ms(), 30);
    assert_eq!(latency.one_way_latency_ms(), 15);
    latency.add_sample(u64::MAX);
    latency.add_sample(u64::MAX);
    latency.add_sample(u64::MAX);
    latency.add_sample(u64::MAX);
    latency.add_sample(u64::MAX);
    assert_eq!(latency.avg_rtt_ms(), u64::MAX);
}

#[test]
fn pings_older_than_ten_seconds_are_purged() {
    let mut tracker = LatencyTracker::new();
    let first = tracker.create_ping_at(1, 0);
    let second = tracker.create_ping_at(2, 5_000 * MS);
    // At 10 s the first ping is exactly ten seconds old: purged.
    let third = tracker.create_ping_at(3, 10_000 * MS);
    assert_eq!(tracker.handle_pong_at("peer", first, 10_001 * MS), None);
    assert_eq!(tracker.handle_pong_at("peer", second, 10_001 * MS), Some(5_001));
    assert_eq!(tracker.handle_pong_at("peer", third, 10_001 * MS), Some(1));
}

#[test]
fn a_ping_just_under_ten_seconds_old_stays() {
    let mut tracker = LatencyTracker::new();
    let first = tracker.create_ping_at(1, 0);
    tracker.create_ping_at(2, 10_000 * MS - 1);
    assert_eq!(tracker.handle_pong_at("peer", first, 10_000 * MS), Some(10_000));
}

#[test]
fn clear_forgets_everything() {
    let mut tracker = LatencyTracker::new();
    tracker.set_host("host".to_string());
    let ts = tracker.create_ping_at(7, 0);
    tracker.handle_pong_at("host", ts, 80 * MS);
    assert_eq!(tracker.host_latency_ms(), 40);
    let pending = tracker.create_ping_at(8, 100 * MS);
    tracker.clear();
    assert_eq!(tracker.host_latency_ms(), DEFAULT_LATENCY_MS);
    assert_eq!(tracker.peer_latency_ms("host"), DEFAULT_LATENCY_MS);
    assert_eq!(tracker.handle_pong_at("host", pending, 110 * MS), None);
}

#[test]
fn tracker_reads_the_clock_it_was_given() {
    let clock = MonotonicClock::start();
    while clock.now_ns() < 5 * MS {
        std::hint::spin_loop();
    }

    let tracker = LatencyTracker::with_clock(clock);

    assert!(tracker.now_ns() >= 5 * MS);
    assert_eq!(tracker.host_latency_ms(), DEFAULT_LATENCY_MS);
}
