use cider_core::network::manager::{
    bootstrap_nodes, dht_protocol_string, is_loopback_address, protocol_version_string,
    provider_key, relay_listen_addresses, supports_relay, topic_for, EnterPlan, GOSSIP_LAZY,
    MESH_N, MESH_N_HIGH, MESH_N_LOW, MESH_OUTBOUND_MIN,
};
use cider_core::network::signaling::{normalize_room_code, signaling_topic};
use cider_core::network::{NetworkError, NetworkEvent, NetworkState};
use cider_core::relay::admission::is_cider;

#[test]
fn topics_and_keys() {
    assert_eq!(topic_for("ABCDEF"), "cider-room-ABCDEF");
    assert_eq!(provider_key("ABCDEF"), b"cider-room-ABCDEF".to_vec());
    assert_eq!(dht_protocol_string(), "/ipfs/kad/1.0.0");
    assert_eq!(protocol_version_string(), "/cider-together/1.0.0");
    // A relay takes a peer of this system by its protocol version.
    assert!(is_cider(&protocol_version_string()));
    assert_eq!(bootstrap_nodes().len(), 2);
    assert!(MESH_OUTBOUND_MIN <= MESH_N_LOW && MESH_N_LOW <= MESH_N && MESH_N <= MESH_N_HIGH);
    assert_eq!((MESH_N, MESH_N_LOW, MESH_N_HIGH, MESH_OUTBOUND_MIN, GOSSIP_LAZY), (3, 1, 6, 0, 3));
}

#[test]
fn one_room_at_a_time() {
    let mut state = NetworkState::new("me".to_string());
    assert_eq!(state.local_peer_id_string(), "me");
    assert_eq!(state.broadcast().unwrap_err(), NetworkError::NotInRoom);
    assert_eq!(
        state.create_room("ABCDEF").unwrap(),
        EnterPlan { topic: "cider-room-ABCDEF".to_string(), find_providers: false }
    );
    assert_eq!(
        state.join_room("ABCDEF").unwrap(),
        EnterPlan { topic: "cider-room-ABCDEF".to_string(), find_providers: true }
    );
    state.room_entered("cider-room-ABCDEF".to_string());
    assert_eq!(state.create_room("XYXYXY").unwrap_err(), NetworkError::AlreadyInRoom);
    assert_eq!(state.join_room("XYXYXY").unwrap_err(), NetworkError::AlreadyInRoom);
    assert_eq!(state.broadcast().unwrap(), "cider-room-ABCDEF");
    assert_eq!(state.leave_room(), Some("cider-room-ABCDEF".to_string()));
    assert_eq!(state.leave_room(), None);
    assert!(state.join_room("XYXYXY").is_ok());
}

#[test]
fn subscriptions_to_the_room_are_told() {
    let mut state = NetworkState::new("me".to_string());
    // In no room: nothing is told.
    assert_eq!(state.peer_subscribed("peer1", "cider-room-ABCDEF"), None);
    state.room_entered("cider-room-ABCDEF".to_string());
    assert_eq!(
        state.peer_subscribed("peer1", "cider-room-ABCDEF"),
        Some(NetworkEvent::PeerSubscribed { peer_id: "peer1".to_string() })
    );
    assert!(state.is_room_peer("peer1"));
    // Another topic is none of our business.
    assert_eq!(state.peer_subscribed("peer2", "cider-room-XYXYXY"), None);
    assert!(!state.is_room_peer("peer2"));
    assert_eq!(state.peer_unsubscribed("peer1", "cider-room-XYXYXY"), None);
    assert!(state.is_room_peer("peer1"));
    assert_eq!(
        state.peer_unsubscribed("peer1", "cider-room-ABCDEF"),
        Some(NetworkEvent::PeerUnsubscribed { peer_id: "peer1".to_string() })
    );
    assert!(!state.is_room_peer("peer1"));

    state.peer_subscribed("peer3", "cider-room-ABCDEF");
    state.connection_closed("peer3");
    assert!(!state.is_room_peer("peer3"));
    state.peer_subscribed("peer4", "cider-room-ABCDEF");
    state.leave_room();
    assert!(!state.is_room_peer("peer4"));
}

#[test]
fn discovered_peers_are_dialed_unless_it_is_us() {
    let mut state = NetworkState::new("me".to_string());
    assert!(state.peer_discovered("peer1"));
    assert!(!state.peer_discovered("me"));
    state.peer_expired("peer1");
    state.reservation_accepted("relay");
    state.connection_closed("relay");
}

#[test]
fn reservations_are_asked_for_on_addresses_that_can_be_reached() {
    let protocols = vec!["/ipfs/id/1.0.0".to_string(), "/libp2p/circuit/relay/0.2.0/hop".to_string()];
    let addresses = vec![
        "/ip4/127.0.0.1/tcp/4001".to_string(),
        "/ip4/203.0.113.7/tcp/4001".to_string(),
        "/ip6/::1/tcp/4001".to_string(),
        "/ip4/203.0.113.7/udp/4001/quic-v1".to_string(),
    ];
    assert!(supports_relay(&protocols));
    assert_eq!(
        relay_listen_addresses(&protocols, &addresses, "RELAY"),
        vec![
            "/ip4/203.0.113.7/tcp/4001/p2p/RELAY/p2p-circuit".to_string(),
            "/ip4/203.0.113.7/udp/4001/quic-v1/p2p/RELAY/p2p-circuit".to_string(),
        ]
    );
    let plain = vec!["/ipfs/id/1.0.0".to_string()];
    assert!(!supports_relay(&plain));
    assert!(relay_listen_addresses(&plain, &addresses, "RELAY").is_empty());
    assert!(relay_listen_addresses(&protocols, &[].to_vec(), "RELAY").is_empty());
}

#[test]
fn loopback_addresses() {
    assert!(is_loopback_address("/ip4/127.0.0.1/tcp/1"));
    assert!(is_loopback_address("/ip4/127.8.9.10/udp/1/quic-v1"));
    assert!(is_loopback_address("/ip6/::1"));
    assert!(is_loopback_address("/ip6/::1/tcp/1"));
    assert!(!is_loopback_address("/ip6/::12/tcp/1"));
    assert!(!is_loopback_address("/ip4/12.7.0.1/tcp/1"));
    assert!(!is_loopback_address("/ip4/10.127.0.1/tcp/1"));
    assert!(!is_loopback_address(""));
}

#[test]
fn network_errors_in_words() {
    assert_eq!(NetworkError::Transport("x".to_string()).message(), "Failed to create transport: x");
    assert_eq!(NetworkError::Connection("x".to_string()).message(), "Failed to connect to peer: x");
    assert_eq!(NetworkError::RoomNotFound("ABC".to_string()).message(), "Room not found: ABC");
    assert_eq!(NetworkError::AlreadyInRoom.message(), "Already in a room");
    assert_eq!(NetworkError::NotInRoom.message(), "Not in a room");
    assert_eq!(NetworkError::Libp2p("x".to_string()).message(), "libp2p error: x");
    assert_eq!(NetworkError::JoinTimeout.message(), "Join timeout");
}

#[test]
fn boards_are_named_by_the_code_in_lower_case() {
    assert_eq!(normalize_room_code("ABC-DEF"), "abcdef");
    assert_eq!(normalize_room_code(" a b c "), "abc");
    assert_eq!(signaling_topic("ABC-DEF"), "cider-together-abcdef");
}
