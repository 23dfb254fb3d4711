use cider_core::relay::admission::{has_timed_out, is_cider, Admission, Verdict};
use cider_core::relay::dashboard::{
    reachability_mark, shown_peer_id, status_label, ScrollKey, ScrollState,
};
use cider_core::relay::metrics::format_uptime;
use cider_core::relay::reachability::{
    is_plausible_ipv4, parse_port, port_check_body, port_check_says_reachable, port_or_default,
};
use cider_core::relay::{truncate_peer_id, LogLevel, Metrics, ServerStatus};

const SEC: u64 = 1_000_000_000;

#[test]
fn a_cider_peer_is_verified() {
    let mut admission = Admission::new();
    admission.connection_established("peer1", 0);
    assert!(admission.is_pending("peer1"));
    assert!(!admission.is_verified("peer1"));
    assert_eq!(admission.identified("peer1", "/cider-together/1.0.0"), Verdict::Verified);
    assert!(admission.is_verified("peer1"));
    assert!(!admission.is_pending("peer1"));
    // Identify fires again, whatever it says now.
    assert_eq!(admission.identified("peer1", "ipfs/0.1.0"), Verdict::AlreadyVerified);
    assert!(admission.is_verified("peer1"));
    // One more transport to a verified peer: not pending again.
    admission.connection_established("peer1", 5 * SEC);
    assert!(!admission.is_pending("peer1"));
    assert!(admission.sweep(100 * SEC).is_empty());
}

#[test]
fn a_stranger_is_rejected() {
    let mut admission = Admission::new();
    admission.connection_established("peer2", 0);
    assert_eq!(admission.identified("peer2", "ipfs/0.1.0"), Verdict::Rejected);
    assert!(!admission.is_verified("peer2"));
    assert!(!admission.is_pending("peer2"));
}

#[test]
fn the_protocol_version_is_read_without_regard_to_case() {
    assert!(is_cider("/cider-together/1.0.0"));
    assert!(is_cider("/cider-relay/1.0.0"));
    assert!(is_cider("Cider"));
    assert!(is_cider("xxCIDERxx"));
    assert!(!is_cider("cide"));
    assert!(!is_cider("c-i-d-e-r"));
    assert!(!is_cider(""));
    assert!(!is_cider("ipfs/0.1.0"));
}

#[test]
fn silent_peers_are_swept_after_thirty_seconds() {
    let mut admission = Admission::new();
    admission.connection_established("early", 0);
    admission.connection_established("late", 10 * SEC);
    // A second connection does not reset the time.
    admission.connection_established("early", 20 * SEC);

    // Thirty seconds are not more than thirty.
    assert!(admission.sweep(30 * SEC).is_empty());
    assert_eq!(admission.sweep(30 * SEC + 1), vec!["early".to_string()]);
    assert!(!admission.is_pending("early"));
    assert!(admission.is_pending("late"));
    assert!(admission.sweep(35 * SEC).is_empty());
    assert_eq!(admission.sweep(41 * SEC), vec!["late".to_string()]);
    assert!(admission.sweep(100 * SEC).is_empty());
}

#[test]
fn the_sweep_names_everybody_who_is_overdue() {
    let mut admission = Admission::new();
    admission.connection_established("a", 0);
    admission.connection_established("b", 50 * SEC);
    admission.connection_established("c", SEC);
    admission.connection_established("d", 2 * SEC);
    admission.identified("d", "cider");
    assert_eq!(admission.sweep(60 * SEC), vec!["a".to_string(), "c".to_string()]);
    assert!(admission.is_pending("b"));
    assert!(admission.is_verified("d"));
}

#[test]
fn timing_out() {
    assert!(!has_timed_out(0, 30 * SEC));
    assert!(has_timed_out(0, 30 * SEC + 1));
    assert!(has_timed_out(5 * SEC, 36 * SEC));
    assert!(!has_timed_out(100 * SEC, 0));
}

#[test]
fn a_closed_connection_is_forgotten() {
    let mut admission = Admission::new();
    admission.connection_established("peer1", 0);
    admission.connection_established("peer2", 0);
    admission.identified("peer1", "cider");
    admission.connection_closed("peer1");
    admission.connection_closed("peer2");
    assert!(!admission.is_verified("peer1"));
    assert!(!admission.is_pending("peer2"));
    // It has to identify itself anew.
    admission.connection_established("peer1", SEC);
    assert!(admission.is_pending("peer1"));
}

#[test]
fn peer_ids_are_shortened_for_display() {
    assert_eq!(truncate_peer_id("short"), "short");
    assert_eq!(truncate_peer_id("0123456789abcdef"), "0123456789abcdef");
    assert_eq!(truncate_peer_id("0123456789abcdefg"), "01234567...defg");
    assert_eq!(
        truncate_peer_id("12D3KooWGzBk2GYkMYX4W9zXb3bHhPq1cFn4bQeZ9vTnJxY7aBcD"),
        "12D3KooW...aBcD"
    );
    assert_eq!(truncate_peer_id(""), "");
}

#[test]
fn uptime_in_words() {
    assert_eq!(format_uptime(0), "0s");
    assert_eq!(format_uptime(59), "59s");
    assert_eq!(format_uptime(60), "1m 0s");
    assert_eq!(format_uptime(3_599), "59m 59s");
    assert_eq!(format_uptime(3_600), "1h 0m");
    assert_eq!(format_uptime(90_061), "25h 1m");
    assert_eq!(format_uptime(-5), "-5s");
    let metrics = Metrics::new_at(1_000);
    assert_eq!(metrics.uptime_at(1_000), "0s");
    assert_eq!(metrics.uptime_at(62_999), "1m 1s");
    assert_eq!(metrics.uptime_at(7_261_000), "2h 1m");
    assert_eq!(metrics.uptime_at(-500), "-1s");
    assert_eq!(metrics.uptime_at(500), "0s");
}

#[test]
fn log_levels() {
    assert_eq!(LogLevel::Info.as_str(), "INFO");
    assert_eq!(LogLevel::Warning.as_str(), "WARN");
    assert_eq!(LogLevel::Error.as_str(), "ERROR");
    assert_eq!(LogLevel::Connection.as_str(), "CONN");
    assert_eq!(LogLevel::Relay.as_str(), "RELAY");
}

#[test]
fn fresh_metrics() {
    let metrics = Metrics::new_at(123);
    assert_eq!(metrics.start_time_ms, 123);
    assert_eq!(metrics.tcp_port, 4001);
    assert_eq!(metrics.quic_port, 4001);
    assert_eq!(metrics.status, ServerStatus::Starting);
    assert_eq!(metrics.connected_peers, 0);
    assert!(metrics.peer_list.is_empty());
    assert!(metrics.logs.is_empty());
    assert!(metrics.peer_id.is_none());
    assert!(metrics.tcp_reachable.is_none());
}

#[test]
fn connections_are_counted_once_per_peer() {
    let mut metrics = Metrics::new_at(0);
    metrics.connection_established_at("peer-one".to_string(), None, 10);
    metrics.connection_established_at("peer-two".to_string(), Some("tcp".to_string()), 20);
    // Another transport to the same peer.
    metrics.connection_established_at("peer-one".to_string(), None, 30);
    assert_eq!(metrics.connected_peers, 2);
    assert_eq!(metrics.total_connections, 2);
    assert_eq!(metrics.peak_connections, 2);
    assert_eq!(metrics.peer_list.len(), 2);
    assert_eq!(metrics.peer_list[0].connected_at_ms, 10);
    assert_eq!(metrics.logs.len(), 2);
    assert_eq!(metrics.logs[0].message, "Connected: peer-one");
    assert_eq!(metrics.logs[0].level, LogLevel::Connection);
    assert_eq!(metrics.logs[1].timestamp_ms, 20);

    metrics.connection_closed_at("peer-one", 40);
    assert_eq!(metrics.connected_peers, 1);
    assert_eq!(metrics.total_connections, 2);
    assert_eq!(metrics.peak_connections, 2);
    assert_eq!(metrics.peer_list.len(), 1);
    assert_eq!(metrics.peer_list[0].peer_id, "peer-two");
    assert_eq!(metrics.logs[2].message, "Disconnected: peer-one");
    // Closing what is not listed changes nothing.
    metrics.connection_closed_at("peer-one", 50);
    assert_eq!(metrics.connected_peers, 1);
    assert_eq!(metrics.logs.len(), 3);
}

#[test]
fn reservations_are_counted_once_per_peer() {
    let mut metrics = Metrics::new_at(0);
    metrics.connection_established_at("peer-one".to_string(), None, 10);
    metrics.reservation_accepted_at("peer-one", 20);
    assert_eq!(metrics.active_reservations, 1);
    assert_eq!(metrics.total_reservations, 1);
    assert!(metrics.peer_list[0].has_reservation);
    assert_eq!(metrics.logs[1].message, "Reservation: peer-one");
    assert_eq!(metrics.logs[1].level, LogLevel::Relay);
    // A renewal.
    metrics.reservation_accepted_at("peer-one", 30);
    assert_eq!(metrics.active_reservations, 1);
    assert_eq!(metrics.total_reservations, 1);
    assert_eq!(metrics.logs[2].message, "Reservation renewed: peer-one");
    // A peer that is not listed is counted each time.
    metrics.reservation_accepted_at("ghost", 40);
    metrics.reservation_accepted_at("ghost", 50);
    assert_eq!(metrics.active_reservations, 3);
    assert_eq!(metrics.total_reservations, 3);
    // Closing gives the reservation up.
    metrics.connection_closed_at("peer-one", 60);
    assert_eq!(metrics.active_reservations, 2);
    assert_eq!(metrics.total_reservations, 3);
}

#[test]
fn circuits_are_counted() {
    let mut metrics = Metrics::new_at(0);
    metrics.circuit_closed();
    assert_eq!(metrics.active_circuits, 0);
    metrics
        .circuit_established_at("12D3KooWGzBk2GYkMYX4W9zXb3bHhPq1cFn4bQeZ9vTnJxY7aBcD", "dst", 5);
    metrics.circuit_established_at("a", "b", 6);
    assert_eq!(metrics.active_circuits, 2);
    assert_eq!(metrics.total_circuits, 2);
    assert_eq!(metrics.logs[0].message, "Circuit: 12D3KooW...aBcD \u{2192} dst");
    metrics.circuit_closed();
    assert_eq!(metrics.active_circuits, 1);
    assert_eq!(metrics.total_circuits, 2);
}

#[test]
fn the_log_keeps_the_latest_hundred() {
    let mut metrics = Metrics::new_at(0);
    for i in 0..150 {
        metrics.log_at(LogLevel::Info, format!("line {}", i), i);
    }
    assert_eq!(metrics.logs.len(), 100);
    assert_eq!(metrics.logs[0].message, "line 50");
    assert_eq!(metrics.logs[99].message, "line 149");
    assert_eq!(metrics.logs[99].timestamp_ms, 149);
}

#[test]
fn identified_peers_get_their_protocol() {
    let mut metrics = Metrics::new_at(0);
    metrics.connection_established_at("peer-one".to_string(), None, 10);
    metrics.peer_identified("peer-one", "/cider-together/1.0.0".to_string());
    metrics.peer_identified("ghost", "x".to_string());
    assert_eq!(metrics.peer_list[0].protocol, Some("/cider-together/1.0.0".to_string()));
    assert_eq!(metrics.peer_list.len(), 1);
}

#[test]
fn metrics_read_the_clock() {
    let mut metrics = Metrics::new();
    assert!(metrics.start_time_ms > 1_600_000_000_000);
    metrics.log(LogLevel::Info, "hello".to_string());
    metrics.connection_established("peer-one".to_string(), None);
    metrics.reservation_accepted("peer-one");
    metrics.circuit_established("peer-one", "peer-two");
    metrics.connection_closed("peer-one");
    assert_eq!(metrics.logs.len(), 5);
    assert!(metrics.logs[0].timestamp_ms >= metrics.start_time_ms);
    assert_eq!(metrics.total_connections, 1);
    assert_eq!(metrics.connected_peers, 0);
    assert_eq!(metrics.active_reservations, 0);
    assert!(metrics.uptime().ends_with('s'));
}

#[test]
fn ports_from_the_environment() {
    assert_eq!(parse_port("4001"), Some(4001));
    assert_eq!(parse_port("+4001"), Some(4001));
    assert_eq!(parse_port("0"), Some(0));
    assert_eq!(parse_port("00080"), Some(80));
    assert_eq!(parse_port("65535"), Some(65535));
    assert_eq!(parse_port("65536"), None);
    assert_eq!(parse_port("99999999999999999999"), None);
    assert_eq!(parse_port(""), None);
    assert_eq!(parse_port("+"), None);
    assert_eq!(parse_port("-1"), None);
    assert_eq!(parse_port("40 01"), None);
    assert_eq!(parse_port("4001x"), None);
    assert_eq!(parse_port("655359x"), None);
    for text in ["4001", "+1", "65536", "", "x", "0x10", "١٢"] {
        assert_eq!(parse_port(text), text.parse::<u16>().ok());
    }
    assert_eq!(port_or_default(None), 4001);
    assert_eq!(port_or_default(Some("8080")), 8080);
    assert_eq!(port_or_default(Some("eighty")), 4001);
}

#[test]
fn what_outside_services_say() {
    assert!(is_plausible_ipv4("203.0.113.7"));
    assert!(is_plausible_ipv4("255.255.255.255"));
    assert!(!is_plausible_ipv4("255.255.255.2555"));
    assert!(!is_plausible_ipv4("2030113"));
    assert!(!is_plausible_ipv4("<html>1.2.3.4"));
    assert!(!is_plausible_ipv4(""));
    assert!(is_plausible_ipv4("."));
    assert_eq!(port_check_body("203.0.113.7", 4001), r#"{"host":"203.0.113.7","ports":[4001]}"#);
    assert!(port_check_says_reachable(r#"{"check":[{"port":4001,"status":true}]}"#));
    assert!(!port_check_says_reachable(r#"{"check":[{"port":4001,"status":false}]}"#));
    assert!(!port_check_says_reachable(""));
}

#[test]
fn the_log_scrolls() {
    let mut state = ScrollState::new();
    assert_eq!(state, ScrollState { log_scroll: 0, auto_scroll: true });
    assert_eq!(state.scroll_indicator(50), " [AUTO] ");
    // An empty log does not scroll.
    state.on_key(ScrollKey::Up, 0);
    state.on_key(ScrollKey::PageUp, 0);
    state.on_key(ScrollKey::Home, 0);
    assert_eq!(state, ScrollState { log_scroll: 0, auto_scroll: true });

    state.on_key(ScrollKey::Up, 50);
    assert_eq!(state, ScrollState { log_scroll: 1, auto_scroll: false });
    assert_eq!(state.scroll_indicator(50), " [49/50] ");
    state.on_key(ScrollKey::PageUp, 50);
    assert_eq!(state.log_scroll, 11);
    state.on_key(ScrollKey::PageUp, 15);
    assert_eq!(state.log_scroll, 14);
    state.on_key(ScrollKey::Up, 15);
    assert_eq!(state.log_scroll, 14);
    // News does not move a log that is scrolled back.
    state.on_news();
    assert_eq!(state.log_scroll, 14);
    state.on_key(ScrollKey::Home, 50);
    assert_eq!(state, ScrollState { log_scroll: 49, auto_scroll: false });
    assert_eq!(state.scroll_indicator(50), " [1/50] ");
    assert_eq!(state.scrollbar_position(50, 20), 0);
    state.on_key(ScrollKey::PageDown, 50);
    assert_eq!(state, ScrollState { log_scroll: 39, auto_scroll: false });
    assert_eq!(state.scrollbar_position(100, 20), 41);
    state.on_key(ScrollKey::Down, 50);
    assert_eq!(state.log_scroll, 38);
    state.on_key(ScrollKey::ToggleAuto, 50);
    assert_eq!(state, ScrollState { log_scroll: 0, auto_scroll: true });
    state.on_key(ScrollKey::ToggleAuto, 50);
    assert_eq!(state, ScrollState { log_scroll: 0, auto_scroll: false });
    assert_eq!(state.scroll_indicator(0), "");
    // Coming back to the newest line follows again.
    state.on_key(ScrollKey::Up, 50);
    state.on_key(ScrollKey::Down, 50);
    assert_eq!(state, ScrollState { log_scroll: 0, auto_scroll: true });
    state.on_key(ScrollKey::Up, 50);
    state.on_key(ScrollKey::PageDown, 50);
    assert_eq!(state, ScrollState { log_scroll: 0, auto_scroll: true });
    state.on_key(ScrollKey::Up, 50);
    state.on_key(ScrollKey::End, 50);
    assert_eq!(state, ScrollState { log_scroll: 0, auto_scroll: true });
    let mut following = ScrollState { log_scroll: 3, auto_scroll: true };
    following.on_news();
    assert_eq!(following.log_scroll, 0);
}

#[test]
fn what_the_dashboard_shows() {
    assert_eq!(shown_peer_id("short"), "short");
    assert_eq!(shown_peer_id("01234567890123456789"), "01234567890123456789");
    assert_eq!(shown_peer_id("01234567890123456789a"), "01234567890123456789...");
    assert_eq!(reachability_mark(Some(true)), " \u{2713}");
    assert_eq!(reachability_mark(Some(false)), " \u{2717}");
    assert_eq!(reachability_mark(None), " ?");
    assert_eq!(status_label(ServerStatus::Starting), "STARTING");
    assert_eq!(status_label(ServerStatus::Running), "RUNNING");
    assert_eq!(status_label(ServerStatus::Error), "ERROR");
}
