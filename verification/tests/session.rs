use cider_core::cider::{Artwork, NowPlaying, PlayParams};
use cider_core::network::{NetworkCommand, NetworkEvent, RoomCode};
use cider_core::session::commands::refuse_join;
use cider_core::session::timing::is_track_wait_over;
use cider_core::session::types::{PendingSeek, RoomState as ShownRoom, TrackInfo as ShownTrack};
use cider_core::session::{Action, CoreError, Notification, PlayerCommand, Session, SyncStatus};
use cider_core::sync::{Participant, PlaybackInfo, Room, SyncMessage, TrackInfo};

const MS: u64 = 1_000_000;
const T: u64 = 1_700_000_000_000;

fn track(song_id: &str) -> TrackInfo {
    TrackInfo {
        song_id: song_id.to_string(),
        name: "Song".to_string(),
        artist: "Artist".to_string(),
        album: "Album".to_string(),
        artwork_url: "http://art/600x600".to_string(),
        duration_ms: 200_000,
    }
}

fn participant(peer_id: &str, name: &str, is_host: bool) -> Participant {
    Participant { peer_id: peer_id.to_string(), display_name: name.to_string(), is_host }
}

fn room_state(current_track: Option<TrackInfo>, playback: PlaybackInfo) -> SyncMessage {
    SyncMessage::RoomState {
        room_code: "ABCDEF".to_string(),
        host_peer_id: "host".to_string(),
        participants: vec![participant("host", "Hana", true), participant("me", "?", false)],
        current_track,
        playback,
    }
}

fn paused() -> PlaybackInfo {
    PlaybackInfo { is_playing: false, position_ms: 0, timestamp_ms: 0 }
}

/// A listener `me` in the room `ABCDEF` of `host`, let in at `now_ns`.
fn listener_at(now_ns: u64) -> Session {
    let mut session = Session::new("me".to_string());
    session.join_room("abc-def", "Lisa".to_string()).unwrap();
    session.handle_sync_message("host".to_string(), room_state(None, paused()), T, now_ns);
    assert!(session.is_in_room());
    assert!(!session.is_host());
    session
}

/// A host `host` of the room `ABCDEF`.
fn host() -> Session {
    let mut session = Session::new("host".to_string());
    let code = RoomCode::parse("ABCDEF").unwrap();
    session.create_room_with("Hana".to_string(), code.clone()).unwrap();
    session.room_created(&code, 0);
    assert!(session.is_host());
    session
}

fn shown(session: &Session) -> ShownRoom {
    session.get_room_state().unwrap()
}

fn seek(position_ms: u64) -> Action {
    Action::Player(PlayerCommand::Seek { position_ms })
}

fn broadcast(message: SyncMessage) -> Action {
    Action::Network(NetworkCommand::Broadcast { message })
}

#[test]
fn steady_state_heartbeat_does_not_seek() {
    let mut session = listener_at(0);
    let heartbeat = PlaybackInfo { is_playing: true, position_ms: 60_000, timestamp_ms: T };
    let actions = session.heartbeat_observed(heartbeat, 50, 500, 60_400, T + 200);
    assert_eq!(
        actions,
        vec![Action::Notify(Notification::SyncStatus(SyncStatus {
            drift_ms: 150,
            latency_ms: 50,
            elapsed_ms: 200,
            seek_offset_ms: 500,
            calibration_pending: false,
            next_calibration_sample: None,
            sample_history: vec![],
        }))]
    );
    assert!(!session.calibrator.is_awaiting_measurement());
    assert_eq!(session.calibrator.offset_ms(), 500);
}

#[test]
fn heartbeat_from_the_host_asks_the_player() {
    let mut session = listener_at(0);
    let heartbeat = PlaybackInfo { is_playing: true, position_ms: 60_000, timestamp_ms: T };
    let actions = session.handle_sync_message(
        "host".to_string(),
        SyncMessage::Heartbeat { track_id: None, playback: heartbeat },
        T + 100,
        5 * MS,
    );
    // No round trip was measured: the default latency of 10 ms.
    assert_eq!(
        actions,
        vec![Action::ObservePlayback { heartbeat, latency_ms: 10, seek_offset_ms: 500 }]
    );
}

#[test]
fn late_join_seeks_once_the_track_has_loaded() {
    let mut session = Session::new("me".to_string());
    let joined = session.join_room("ABCDEF", "Lisa".to_string()).unwrap();
    assert_eq!(
        joined,
        vec![
            Action::Network(NetworkCommand::JoinRoom { room_code: "ABCDEF".to_string() }),
            Action::ScheduleJoinRequests { room_code: "ABCDEF".to_string() },
            Action::ScheduleJoinTimeout { room_code: "ABCDEF".to_string() },
            Action::StartPingLoop,
        ]
    );
    let playback = PlaybackInfo { is_playing: true, position_ms: 90_000, timestamp_ms: T };
    let actions = session.handle_network_event(
        NetworkEvent::Message {
            from: "host".to_string(),
            message: room_state(Some(track("X")), playback),
        },
        T + 20,
        7 * MS,
    );
    let pending = PendingSeek { position_ms: 90_000, timestamp_ms: T, extrapolate: true };
    assert_eq!(actions.len(), 5);
    assert_eq!(
        actions[0],
        Action::Notify(Notification::RoomStateChanged(ShownRoom {
            room_code: "ABCDEF".to_string(),
            local_peer_id: "me".to_string(),
            host_peer_id: "host".to_string(),
            // The host does not know our name yet; we do.
            participants: vec![participant("host", "Hana", true), participant("me", "Lisa", false)],
            current_track: Some(ShownTrack {
                song_id: "X".to_string(),
                name: "Song".to_string(),
                artist: "Artist".to_string(),
                album: "Album".to_string(),
                artwork_url: "http://art/600x600".to_string(),
                duration_ms: 200_000,
                position_ms: 0,
            }),
            playback,
        }))
    );
    assert_eq!(actions[1], Action::Notify(Notification::Connected));
    assert_eq!(
        actions[2],
        broadcast(SyncMessage::JoinRequest { display_name: "Lisa".to_string() })
    );
    assert_eq!(actions[3], Action::Player(PlayerCommand::PlayItem { song_id: "X".to_string() }));
    assert_eq!(actions[4], Action::AwaitTrack { song_id: "X".to_string(), then: pending });
    assert!(session.is_in_room());
    assert!(!session.calibrator.is_awaiting_measurement());

    // 300 ms later the player reports the track loaded.
    let loaded = session.track_loaded(pending, T + 300);
    assert_eq!(loaded, vec![seek(90_800)]);
    assert!(session.calibrator.is_awaiting_measurement());
}

#[test]
fn late_join_into_a_paused_room_seeks_to_the_position_itself() {
    let mut session = Session::new("me".to_string());
    let pending = PendingSeek { position_ms: 90_000, timestamp_ms: T, extrapolate: false };
    assert_eq!(session.track_loaded(pending, T + 300), vec![seek(90_000)]);
}

#[test]
fn host_departure_by_unsubscribe_ends_the_room() {
    let mut session = listener_at(0);
    let actions = session
        .handle_network_event(NetworkEvent::PeerUnsubscribed { peer_id: "host".to_string() }, T, MS);
    assert_eq!(
        actions,
        vec![
            Action::Notify(Notification::ParticipantLeft("host".to_string())),
            Action::Player(PlayerCommand::Pause),
            Action::Notify(Notification::RoomEnded("Host left the room".to_string())),
        ]
    );
    assert!(!session.is_in_room());
    assert!(matches!(session.room, Room::Idle));
}

#[test]
fn a_listener_that_leaves_is_taken_out() {
    let mut session = listener_at(0);
    session.handle_sync_message(
        "host".to_string(),
        SyncMessage::ParticipantJoined(participant("peer3", "Pat", false)),
        T,
        MS,
    );
    let actions = session
        .handle_network_event(NetworkEvent::PeerUnsubscribed { peer_id: "peer3".to_string() }, T, MS);
    assert_eq!(actions.len(), 2);
    assert_eq!(actions[0], Action::Notify(Notification::ParticipantLeft("peer3".to_string())));
    assert!(session.is_in_room());
    assert_eq!(shown(&session).participants.len(), 2);
    // Somebody who was never there: nothing follows.
    let none = session
        .handle_network_event(NetworkEvent::PeerUnsubscribed { peer_id: "peer9".to_string() }, T, MS);
    assert!(none.is_empty());
}

#[test]
fn host_departure_by_timeout_ends_the_room() {
    let mut session = listener_at(1_000 * MS);
    // Fifteen seconds to the nanosecond: not yet.
    let (actions, goes_on) = session.ping_tick(T, 16_000 * MS);
    assert!(goes_on);
    assert_eq!(actions, vec![broadcast(SyncMessage::Ping { sent_at_ms: T })]);
    assert!(session.is_in_room());

    let (actions, goes_on) = session.ping_tick(T + 5_000, 16_000 * MS + 1);
    assert!(!goes_on);
    assert_eq!(
        actions,
        vec![
            Action::Player(PlayerCommand::Pause),
            Action::Notify(Notification::RoomEnded("Host disconnected (timeout)".to_string())),
        ]
    );
    assert!(!session.is_in_room());

    // The loop has nothing to do any more.
    let (actions, goes_on) = session.ping_tick(T + 10_000, 21_000 * MS);
    assert!(!goes_on);
    assert!(actions.is_empty());
}

#[test]
fn a_heartbeat_keeps_the_room_alive() {
    let mut session = listener_at(0);
    let heartbeat = PlaybackInfo { is_playing: true, position_ms: 5, timestamp_ms: T };
    let actions = session.heartbeat_finished(heartbeat, Some(true), 14_000 * MS);
    assert_eq!(actions, vec![Action::Notify(Notification::PlaybackChanged(heartbeat))]);
    let (_, goes_on) = session.ping_tick(T, 28_000 * MS);
    assert!(goes_on);
    assert_eq!(shown(&session).playback, heartbeat);
}

#[test]
fn a_joining_peer_pings_and_a_host_does_not() {
    let mut joining = Session::new("me".to_string());
    joining.join_room("ABCDEF", "Lisa".to_string()).unwrap();
    let (actions, goes_on) = joining.ping_tick(T, 100_000 * MS);
    assert!(goes_on);
    assert_eq!(actions, vec![broadcast(SyncMessage::Ping { sent_at_ms: T })]);

    let mut host = host();
    let (actions, goes_on) = host.ping_tick(T, 100_000 * MS);
    assert!(!goes_on);
    assert!(actions.is_empty());
    assert!(host.is_in_room());
}

#[test]
fn seek_from_a_stranger_is_dropped() {
    let mut session = listener_at(0);
    let before = shown(&session);
    let message = SyncMessage::Seek { position_ms: 0, timestamp_ms: T };
    assert!(!session.is_authorized("stranger", &message));
    let actions = session.handle_sync_message("stranger".to_string(), message, T, MS);
    assert!(actions.is_empty());
    assert_eq!(shown(&session), before);
    assert!(!session.calibrator.is_awaiting_measurement());
}

#[test]
fn what_is_taken_from_the_host_alone_is_dropped_from_others() {
    let heartbeat = PlaybackInfo { is_playing: true, position_ms: 1, timestamp_ms: T };
    let messages = vec![
        SyncMessage::Play { track: track("X"), position_ms: 1, timestamp_ms: T },
        SyncMessage::Pause { position_ms: 1, timestamp_ms: T },
        SyncMessage::Seek { position_ms: 1, timestamp_ms: T },
        SyncMessage::TrackChange { track: track("X"), position_ms: 1, timestamp_ms: T },
        SyncMessage::TransferHost { new_host_peer_id: "stranger".to_string() },
        SyncMessage::ParticipantJoined(participant("stranger", "Eve", true)),
        SyncMessage::ParticipantLeft { peer_id: "host".to_string() },
        SyncMessage::Heartbeat { track_id: None, playback: heartbeat },
        room_state(Some(track("X")), heartbeat),
    ];
    for message in messages {
        let mut session = listener_at(0);
        let before = shown(&session);
        assert!(message.is_host_only() || matches!(message, SyncMessage::RoomState { .. }));
        let actions = session.handle_sync_message("stranger".to_string(), message, T, MS);
        assert!(actions.is_empty());
        assert_eq!(shown(&session), before);
        assert!(!session.calibrator.is_awaiting_measurement());
    }
}

#[test]
fn requires_host_names_the_playback_commands() {
    let heartbeat = PlaybackInfo { is_playing: true, position_ms: 1, timestamp_ms: T };
    assert!(SyncMessage::Play { track: track("X"), position_ms: 1, timestamp_ms: T }.requires_host());
    assert!(SyncMessage::Pause { position_ms: 1, timestamp_ms: T }.requires_host());
    assert!(SyncMessage::Seek { position_ms: 1, timestamp_ms: T }.requires_host());
    assert!(SyncMessage::TrackChange { track: track("X"), position_ms: 1, timestamp_ms: T }
        .requires_host());
    assert!(SyncMessage::TransferHost { new_host_peer_id: "p".to_string() }.requires_host());
    assert!(!SyncMessage::Heartbeat { track_id: None, playback: heartbeat }.requires_host());
    assert!(SyncMessage::Heartbeat { track_id: None, playback: heartbeat }.is_host_only());
    assert!(!SyncMessage::Ping { sent_at_ms: 1 }.is_host_only());
    assert!(!SyncMessage::JoinRequest { display_name: "n".to_string() }.is_host_only());
    assert!(!room_state(None, heartbeat).is_host_only());
}

#[test]
fn drift_of_exactly_the_threshold_does_not_seek() {
    let heartbeat = PlaybackInfo { is_playing: false, position_ms: 100_000, timestamp_ms: T };
    for position in [103_000, 97_000] {
        let mut session = listener_at(0);
        let actions = session.heartbeat_observed(heartbeat, 50, 500, position, T + 200);
        assert_eq!(actions.len(), 1);
        assert!(matches!(actions[0], Action::Notify(Notification::SyncStatus(_))));
        assert!(!session.calibrator.is_awaiting_measurement());
    }
    // One millisecond more, to either side, and the listener seeks to
    // where the host is plus the seek offset.
    for position in [103_001, 96_999] {
        let mut session = listener_at(0);
        let actions = session.heartbeat_observed(heartbeat, 50, 500, position, T + 200);
        assert_eq!(actions.len(), 2);
        assert_eq!(actions[1], seek(100_500));
        assert!(session.calibrator.is_awaiting_measurement());
    }
}

#[test]
fn a_heartbeat_measures_the_seek_before_it() {
    let mut session = listener_at(0);
    session.calibrator.mark_seek_performed();
    let heartbeat = PlaybackInfo { is_playing: true, position_ms: 60_000, timestamp_ms: T };
    // Expected 60 000 + 200 + 50 = 60 250; the player is 200 behind.
    let actions = session.heartbeat_observed(heartbeat, 50, 500, 60_050, T + 200);
    assert_eq!(
        actions,
        vec![Action::Notify(Notification::SyncStatus(SyncStatus {
            drift_ms: -200,
            latency_ms: 50,
            elapsed_ms: 200,
            seek_offset_ms: 500,
            calibration_pending: true,
            next_calibration_sample: Some(700),
            sample_history: vec![],
        }))]
    );
    assert_eq!(session.calibrator.offset_ms(), 580);
    assert!(!session.calibrator.is_awaiting_measurement());
}

#[test]
fn a_large_drift_is_measured_and_the_new_seek_marked() {
    let mut session = listener_at(0);
    session.calibrator.mark_seek_performed();
    let heartbeat = PlaybackInfo { is_playing: true, position_ms: 60_000, timestamp_ms: T };
    let actions = session.heartbeat_observed(heartbeat, 50, 500, 50_250, T + 200);
    // The seek goes by the offset as it was when the player was asked.
    assert_eq!(actions.len(), 2);
    assert_eq!(actions[1], seek(60_750));
    // The outlier was taken in at a twentieth: 500 + 0.05 * 10 000.
    assert_eq!(session.calibrator.offset_ms(), 1_000);
    assert!(session.calibrator.sample_history()[0].rejected);
    assert!(session.calibrator.is_awaiting_measurement());
}

#[test]
fn the_player_is_made_to_do_as_the_host() {
    let playing = PlaybackInfo { is_playing: true, position_ms: 5, timestamp_ms: T };
    let stopped = PlaybackInfo { is_playing: false, position_ms: 5, timestamp_ms: T };
    let mut session = listener_at(0);
    assert_eq!(
        session.heartbeat_finished(playing, Some(false), MS),
        vec![
            Action::Player(PlayerCommand::Play),
            Action::Notify(Notification::PlaybackChanged(playing)),
        ]
    );
    assert_eq!(
        session.heartbeat_finished(stopped, Some(true), MS),
        vec![
            Action::Player(PlayerCommand::Pause),
            Action::Notify(Notification::PlaybackChanged(stopped)),
        ]
    );
    assert_eq!(
        session.heartbeat_finished(stopped, None, MS),
        vec![Action::Notify(Notification::PlaybackChanged(stopped))]
    );
    let mut host = host();
    assert!(host.heartbeat_finished(playing, Some(false), MS).is_empty());
}

#[test]
fn playback_commands_of_the_host_are_followed() {
    let mut session = listener_at(0);
    let play = session.handle_sync_message(
        "host".to_string(),
        SyncMessage::Play { track: track("X"), position_ms: 10_000, timestamp_ms: T },
        T,
        MS,
    );
    assert_eq!(
        play,
        vec![
            Action::Player(PlayerCommand::PlayItem { song_id: "X".to_string() }),
            Action::Wait { millis: 100 },
            seek(10_500),
            Action::Player(PlayerCommand::Play),
        ]
    );
    assert!(session.calibrator.is_awaiting_measurement());

    let mut session = listener_at(0);
    let pause = session.handle_sync_message(
        "host".to_string(),
        SyncMessage::Pause { position_ms: 10_000, timestamp_ms: T },
        T,
        MS,
    );
    assert_eq!(pause, vec![Action::Player(PlayerCommand::Pause), seek(10_000)]);
    assert!(!session.calibrator.is_awaiting_measurement());

    let seeked = session.handle_sync_message(
        "host".to_string(),
        SyncMessage::Seek { position_ms: u64::MAX - 100, timestamp_ms: T },
        T,
        MS,
    );
    assert_eq!(seeked, vec![seek(u64::MAX)]);
    assert!(session.calibrator.is_awaiting_measurement());

    let changed = session.handle_sync_message(
        "host".to_string(),
        SyncMessage::TrackChange { track: track("Y"), position_ms: 0, timestamp_ms: T },
        T,
        MS,
    );
    assert_eq!(
        changed,
        vec![
            Action::Player(PlayerCommand::PlayItem { song_id: "Y".to_string() }),
            Action::AwaitTrack {
                song_id: "Y".to_string(),
                then: PendingSeek { position_ms: 0, timestamp_ms: T, extrapolate: true },
            },
            Action::Notify(Notification::TrackChanged(Some(ShownTrack::from_track(&track("Y"))))),
        ]
    );
    assert_eq!(shown(&session).current_track.unwrap().song_id, "Y");
}

#[test]
fn pings_are_answered_and_pongs_measured() {
    let mut session = listener_at(0);
    let pong = session.handle_sync_message(
        "anybody".to_string(),
        SyncMessage::Ping { sent_at_ms: 77 },
        T,
        MS,
    );
    assert_eq!(pong, vec![broadcast(SyncMessage::Pong { ping_sent_at_ms: 77, received_at_ms: T })]);

    let (ping, _) = session.ping_tick(T, 100 * MS);
    assert_eq!(ping, vec![broadcast(SyncMessage::Ping { sent_at_ms: T })]);
    let none = session.handle_sync_message(
        "host".to_string(),
        SyncMessage::Pong { ping_sent_at_ms: T, received_at_ms: T + 1 },
        T + 80,
        180 * MS,
    );
    assert!(none.is_empty());
    // The host was named by the state of the room: 80 ms there and back.
    assert_eq!(session.latency.host_latency_ms(), 40);
    let heartbeat = PlaybackInfo { is_playing: true, position_ms: 0, timestamp_ms: T };
    assert_eq!(
        session.handle_heartbeat(heartbeat),
        vec![Action::ObservePlayback { heartbeat, latency_ms: 40, seek_offset_ms: 500 }]
    );
}

#[test]
fn the_host_lets_listeners_in() {
    let mut session = host();
    let subscribed = session
        .handle_network_event(NetworkEvent::PeerSubscribed { peer_id: "peer1".to_string() }, T, MS);
    assert_eq!(subscribed.len(), 2);
    assert_eq!(
        subscribed[0],
        Action::Notify(Notification::ParticipantJoined(participant("peer1", "?", false)))
    );
    assert_eq!(
        subscribed[1],
        broadcast(SyncMessage::RoomState {
            room_code: "ABCDEF".to_string(),
            host_peer_id: "host".to_string(),
            participants: vec![participant("host", "Hana", true), participant("peer1", "?", false)],
            current_track: None,
            playback: paused(),
        })
    );
    // Subscribing again, or the host itself: only the room is told again.
    let again = session
        .handle_network_event(NetworkEvent::PeerSubscribed { peer_id: "peer1".to_string() }, T, MS);
    assert_eq!(again.len(), 1);
    let own = session
        .handle_network_event(NetworkEvent::PeerSubscribed { peer_id: "host".to_string() }, T, MS);
    assert_eq!(own.len(), 1);

    // The name arrives: no second notice of joining.
    let named = session.handle_sync_message(
        "peer1".to_string(),
        SyncMessage::JoinRequest { display_name: "Pia".to_string() },
        T,
        MS,
    );
    assert_eq!(named.len(), 2);
    assert!(matches!(named[0], Action::Notify(Notification::RoomStateChanged(_))));
    assert_eq!(
        named[1],
        broadcast(SyncMessage::RoomState {
            room_code: "ABCDEF".to_string(),
            host_peer_id: "host".to_string(),
            participants: vec![participant("host", "Hana", true), participant("peer1", "Pia", false)],
            current_track: None,
            playback: paused(),
        })
    );
    // Somebody who never subscribed asks: that is a new participant.
    let new = session.handle_sync_message(
        "peer2".to_string(),
        SyncMessage::JoinRequest { display_name: "adam".to_string() },
        T,
        MS,
    );
    assert_eq!(new.len(), 3);
    assert_eq!(
        new[0],
        Action::Notify(Notification::ParticipantJoined(participant("peer2", "adam", false)))
    );
    let names: Vec<String> =
        shown(&session).participants.iter().map(|p| p.display_name.clone()).collect();
    assert_eq!(names, vec!["Hana", "adam", "Pia"]);
}

#[test]
fn a_listener_does_not_let_anybody_in() {
    let mut session = listener_at(0);
    let before = shown(&session);
    assert!(session
        .handle_network_event(NetworkEvent::PeerSubscribed { peer_id: "peer1".to_string() }, T, MS)
        .is_empty());
    assert!(session
        .handle_sync_message(
            "peer1".to_string(),
            SyncMessage::JoinRequest { display_name: "Pia".to_string() },
            T,
            MS
        )
        .is_empty());
    assert_eq!(shown(&session), before);
}

#[test]
fn membership_notices_of_the_host_are_taken_in() {
    let mut session = listener_at(0);
    let joined = session.handle_sync_message(
        "host".to_string(),
        SyncMessage::ParticipantJoined(participant("peer3", "Pat", false)),
        T,
        MS,
    );
    assert_eq!(joined.len(), 2);
    assert_eq!(
        joined[0],
        Action::Notify(Notification::ParticipantJoined(participant("peer3", "Pat", false)))
    );
    assert_eq!(shown(&session).participants.len(), 3);
    let left = session.handle_sync_message(
        "host".to_string(),
        SyncMessage::ParticipantLeft { peer_id: "peer3".to_string() },
        T,
        MS,
    );
    assert_eq!(left[0], Action::Notify(Notification::ParticipantLeft("peer3".to_string())));
    assert_eq!(shown(&session).participants.len(), 2);

    let transferred = session.handle_sync_message(
        "host".to_string(),
        SyncMessage::TransferHost { new_host_peer_id: "me".to_string() },
        T,
        MS,
    );
    assert_eq!(transferred.len(), 1);
    assert!(session.is_host());
    let room = shown(&session);
    assert_eq!(room.host_peer_id, "me");
    let hosts: Vec<&Participant> = room.participants.iter().filter(|p| p.is_host).collect();
    assert_eq!(hosts.len(), 1);
    assert_eq!(hosts[0].peer_id, "me");
}

#[test]
fn the_state_of_another_room_is_not_for_us() {
    let mut session = Session::new("me".to_string());
    session.join_room("ABCDEF", "Lisa".to_string()).unwrap();
    let other = SyncMessage::RoomState {
        room_code: "XYXYXY".to_string(),
        host_peer_id: "host".to_string(),
        participants: vec![participant("host", "Hana", true)],
        current_track: None,
        playback: paused(),
    };
    assert!(session.handle_sync_message("host".to_string(), other, T, MS).is_empty());
    assert!(!session.is_in_room());
    assert!(matches!(session.room, Room::Joining { .. }));
    // An idle peer takes no room either.
    let mut idle = Session::new("me".to_string());
    assert!(idle.handle_sync_message("host".to_string(), room_state(None, paused()), T, MS).is_empty());
    assert!(!idle.is_in_room());
}

#[test]
fn a_listener_takes_later_states_of_the_room_from_the_host() {
    let mut session = listener_at(0);
    let update = SyncMessage::RoomState {
        room_code: "ABCDEF".to_string(),
        host_peer_id: "host".to_string(),
        participants: vec![
            participant("host", "Hana", true),
            participant("me", "Lisa", false),
            participant("peer3", "Ben", false),
        ],
        current_track: Some(track("Z")),
        playback: paused(),
    };
    let actions = session.handle_sync_message("host".to_string(), update, T, MS);
    // Already in the room: the user is shown the room, nothing else.
    assert_eq!(actions.len(), 1);
    let names: Vec<String> =
        shown(&session).participants.iter().map(|p| p.display_name.clone()).collect();
    assert_eq!(names, vec!["Hana", "Ben", "Lisa"]);
}

#[test]
fn network_errors_are_passed_on() {
    let mut session = Session::new("me".to_string());
    let actions = session.handle_network_event(NetworkEvent::Error("boom".to_string()), T, MS);
    assert_eq!(actions, vec![Action::Notify(Notification::Error("boom".to_string()))]);
    assert!(session
        .handle_network_event(NetworkEvent::Ready { peer_id: "me".to_string() }, T, MS)
        .is_empty());
    assert!(session
        .handle_network_event(NetworkEvent::BootstrapStatus { connected: true }, T, MS)
        .is_empty());
    assert!(session
        .handle_network_event(
            NetworkEvent::ListeningAddresses { addresses: vec!["/ip4/1.2.3.4/tcp/1".to_string()] },
            T,
            MS
        )
        .is_empty());
}

#[test]
fn making_a_room() {
    let mut session = Session::new("host".to_string());
    assert!(!session.is_in_room());
    assert!(session.get_room_state().is_none());
    let (code, command) = session.create_room("Hana".to_string()).unwrap();
    assert_eq!(code.as_str().len(), 6);
    assert_eq!(command, NetworkCommand::CreateRoom { room_code: code.as_str().to_string() });
    assert!(matches!(session.room, Room::Creating { .. }));
    // Busy: neither a second room nor joining one.
    assert_eq!(session.create_room("Hana".to_string()).unwrap_err(), CoreError::AlreadyInRoom);
    assert_eq!(
        session.join_room("ABCDEF", "Hana".to_string()).unwrap_err(),
        CoreError::AlreadyInRoom
    );
    assert_eq!(session.leave_room().unwrap_err(), CoreError::NotInRoom);

    let actions = session.room_created(&code, 0);
    assert_eq!(actions.len(), 2);
    assert_eq!(
        actions[0],
        Action::Notify(Notification::RoomStateChanged(ShownRoom {
            room_code: code.as_str().to_string(),
            local_peer_id: "host".to_string(),
            host_peer_id: "host".to_string(),
            participants: vec![participant("host", "Hana", true)],
            current_track: None,
            playback: paused(),
        }))
    );
    assert_eq!(actions[1], Action::StartHostLoop);
    assert!(session.is_host());
    assert!(session.host_loop_continues());
    // Telling twice changes nothing.
    assert!(session.room_created(&code, 0).is_empty());
}

#[test]
fn a_room_that_could_not_be_made_leaves_the_peer_idle() {
    let mut session = Session::new("host".to_string());
    session.create_room("Hana".to_string()).unwrap();
    session.create_failed();
    assert!(matches!(session.room, Room::Idle));
    let mut active = host();
    active.create_failed();
    assert!(active.is_in_room());
}

#[test]
fn joining_needs_a_room_code() {
    let mut session = Session::new("me".to_string());
    assert_eq!(
        session.join_room("no code", "Lisa".to_string()).unwrap_err(),
        CoreError::NetworkError("Invalid room code".to_string())
    );
    assert!(matches!(session.room, Room::Idle));
    assert!(session.join_request_due("ABCDEF").is_none());
    session.join_room("abc-def", "Lisa".to_string()).unwrap();
    assert_eq!(
        session.join_request_due("ABCDEF"),
        Some(SyncMessage::JoinRequest { display_name: "Lisa".to_string() })
    );
    assert!(session.join_request_due("XYXYXY").is_none());
    assert_eq!(
        session.join_timed_out("ABCDEF"),
        Some(Notification::Error("Room ABCDEF not found".to_string()))
    );
    assert!(session.join_timed_out("XYXYXY").is_none());
    // Once in the room, nothing is due any more.
    session.handle_sync_message("host".to_string(), room_state(None, paused()), T, MS);
    assert!(session.join_request_due("ABCDEF").is_none());
    assert!(session.join_timed_out("ABCDEF").is_none());
}

#[test]
fn leaving_forgets_the_room() {
    let mut session = listener_at(0);
    session.ping_tick(T, MS);
    session.handle_sync_message(
        "host".to_string(),
        SyncMessage::Pong { ping_sent_at_ms: T, received_at_ms: T },
        T,
        101 * MS,
    );
    assert_eq!(session.latency.host_latency_ms(), 50);
    let actions = session.leave_room().unwrap();
    assert_eq!(
        actions,
        vec![
            Action::StopHostLoop,
            Action::StopPingLoop,
            Action::Network(NetworkCommand::LeaveRoom),
            Action::Notify(Notification::Disconnected),
        ]
    );
    assert!(!session.is_in_room());
    assert_eq!(session.latency.host_latency_ms(), 10);
    assert_eq!(session.leave_room().unwrap_err(), CoreError::NotInRoom);

    let mut joining = Session::new("me".to_string());
    joining.join_room("ABCDEF", "Lisa".to_string()).unwrap();
    assert!(joining.leave_room().is_ok());
}

#[test]
fn only_the_host_hands_the_room_over() {
    let mut idle = Session::new("me".to_string());
    assert_eq!(idle.transfer_host("peer1".to_string()).unwrap_err(), CoreError::NotInRoom);
    assert_eq!(idle.require_host().unwrap_err(), CoreError::NotInRoom);
    let mut listener = listener_at(0);
    assert_eq!(listener.transfer_host("me".to_string()).unwrap_err(), CoreError::NotHost);
    assert_eq!(listener.require_host().unwrap_err(), CoreError::NotHost);

    let mut session = host();
    assert!(session.require_host().is_ok());
    assert_eq!(
        session.transfer_host("peer1".to_string()).unwrap_err(),
        CoreError::NetworkError("Peer not found".to_string())
    );
    assert!(session.is_host());
    session.handle_network_event(NetworkEvent::PeerSubscribed { peer_id: "peer1".to_string() }, T, MS);
    let actions = session.transfer_host("peer1".to_string()).unwrap();
    assert_eq!(actions.len(), 2);
    assert_eq!(
        actions[0],
        broadcast(SyncMessage::TransferHost { new_host_peer_id: "peer1".to_string() })
    );
    assert!(!session.is_host());
    assert!(!session.host_loop_continues());
    assert_eq!(shown(&session).host_peer_id, "peer1");
}

fn now_playing(song_id: Option<&str>, position_ms: u64) -> NowPlaying {
    NowPlaying {
        play_params: song_id.map(|id| PlayParams { id: id.to_string(), kind: "song".to_string() }),
        name: "Song".to_string(),
        artist_name: "Artist".to_string(),
        album_name: "Album".to_string(),
        artwork: Artwork { width: 100, height: 100, url: "http://art/{w}x{h}".to_string() },
        duration_in_millis: 200_000,
        position_ms,
    }
}

#[test]
fn the_host_tells_track_changes_and_heartbeats() {
    let mut session = host();
    let first = session.host_polled(&now_playing(Some("X"), 1_000), true, T, 1_500 * MS);
    assert_eq!(
        first,
        vec![
            broadcast(SyncMessage::TrackChange {
                track: track("X"),
                position_ms: 1_000,
                timestamp_ms: T,
            }),
            Action::Notify(Notification::TrackChanged(Some(ShownTrack::from_track(&track("X"))))),
        ]
    );
    assert_eq!(session.last_broadcast_track_id, Some("X".to_string()));
    let room = shown(&session);
    assert_eq!(room.current_track.unwrap().song_id, "X");
    assert_eq!(room.playback, PlaybackInfo { is_playing: true, position_ms: 1_000, timestamp_ms: T });

    let second = session.host_polled(&now_playing(Some("X"), 2_500), true, T + 1_500, 3_000 * MS);
    assert_eq!(
        second,
        vec![broadcast(SyncMessage::Heartbeat {
            track_id: Some("X".to_string()),
            playback: PlaybackInfo { is_playing: true, position_ms: 2_500, timestamp_ms: T + 1_500 },
        })]
    );
    let third = session.host_polled(&now_playing(Some("Y"), 0), false, T + 3_000, 4_500 * MS);
    assert!(matches!(
        third[0],
        Action::Network(NetworkCommand::Broadcast { message: SyncMessage::TrackChange { .. } })
    ));
    assert_eq!(session.last_broadcast_track_id, Some("Y".to_string()));

    // A listener tells nothing.
    let mut listener = listener_at(0);
    assert!(listener.host_polled(&now_playing(Some("X"), 0), true, T, MS).is_empty());
}

#[test]
fn what_the_host_tells_at_the_wish_of_its_user() {
    let mut session = host();
    assert_eq!(session.sync_play(T).unwrap(), vec![]);
    assert_eq!(
        session.sync_pause(T).unwrap(),
        vec![broadcast(SyncMessage::Pause { position_ms: 0, timestamp_ms: T })]
    );
    assert_eq!(
        session.sync_seek(42_000, T).unwrap(),
        vec![broadcast(SyncMessage::Seek { position_ms: 42_000, timestamp_ms: T })]
    );
    assert_eq!(
        session.broadcast_track_change(track("X"), 5, T).unwrap(),
        vec![broadcast(SyncMessage::TrackChange {
            track: track("X"),
            position_ms: 5,
            timestamp_ms: T
        })]
    );
    assert_eq!(
        session.sync_play(T).unwrap(),
        vec![broadcast(SyncMessage::Play { track: track("X"), position_ms: 0, timestamp_ms: T })]
    );
    assert_eq!(
        session.broadcast_playback(Some("X".to_string()), true, 7, T).unwrap(),
        vec![broadcast(SyncMessage::Heartbeat {
            track_id: Some("X".to_string()),
            playback: PlaybackInfo { is_playing: true, position_ms: 7, timestamp_ms: T },
        })]
    );

    let mut listener = listener_at(0);
    assert_eq!(listener.sync_play(T).unwrap_err(), CoreError::NotHost);
    assert_eq!(listener.sync_pause(T).unwrap_err(), CoreError::NotHost);
    assert_eq!(listener.sync_seek(1, T).unwrap_err(), CoreError::NotHost);
    assert_eq!(listener.broadcast_playback(None, true, 7, T).unwrap_err(), CoreError::NotHost);
    assert_eq!(listener.broadcast_track_change(track("X"), 5, T).unwrap_err(), CoreError::NotHost);
    let idle = Session::new("me".to_string());
    assert_eq!(idle.sync_play(T).unwrap_err(), CoreError::NotInRoom);
    assert_eq!(idle.sync_pause(T).unwrap_err(), CoreError::NotInRoom);
}

#[test]
fn errors_in_words() {
    assert_eq!(CoreError::CiderNotReachable.message(), "Cider is not reachable");
    assert_eq!(CoreError::CiderApiError("x".to_string()).message(), "Cider API error: x");
    assert_eq!(CoreError::NetworkError("y".to_string()).message(), "Network error: y");
    assert_eq!(CoreError::NotInRoom.message(), "Not in a room");
    assert_eq!(CoreError::AlreadyInRoom.message(), "Already in a room");
    assert_eq!(CoreError::NotHost.message(), "Not the host");
    assert_eq!(
        CoreError::JoinTimeout.message(),
        "Join timeout - room not found or host not reachable"
    );
}

#[test]
fn waiting_for_a_track_to_load() {
    assert!(!is_track_wait_over(0, None, "X"));
    assert!(!is_track_wait_over(5_000, Some("Y"), "X"));
    assert!(is_track_wait_over(5_001, Some("Y"), "X"));
    assert!(is_track_wait_over(5_001, None, "X"));
    assert!(is_track_wait_over(0, Some("X"), "X"));
}

#[test]
fn the_session_reads_its_clocks() {
    let session = Session::new("me".to_string());
    let (wall_ms, first) = session.now();
    let (_, second) = session.now();
    assert!(wall_ms > 1_600_000_000_000);
    assert!(second >= first);
}

#[test]
fn a_peer_that_is_let_in_is_among_the_participants() {
    // The host has not heard of us yet: its list is without us.
    let mut session = Session::new("me".to_string());
    session.join_room("ABCDEF", "Lisa".to_string()).unwrap();
    let told = SyncMessage::RoomState {
        room_code: "ABCDEF".to_string(),
        host_peer_id: "host".to_string(),
        participants: vec![participant("host", "Hana", true)],
        current_track: None,
        playback: paused(),
    };
    let actions = session.handle_sync_message("host".to_string(), told, T, MS);
    assert_eq!(
        shown(&session).participants,
        vec![participant("host", "Hana", true), participant("me", "Lisa", false)]
    );
    assert_eq!(actions.len(), 3);
    assert_eq!(actions[1], Action::Notify(Notification::Connected));
    assert_eq!(actions[2], broadcast(SyncMessage::JoinRequest { display_name: "Lisa".to_string() }));

    // Even a list that names nobody leaves us in our room.
    let mut alone = Session::new("me".to_string());
    alone.join_room("ABCDEF", "Lisa".to_string()).unwrap();
    let empty = SyncMessage::RoomState {
        room_code: "ABCDEF".to_string(),
        host_peer_id: "host".to_string(),
        participants: vec![],
        current_track: None,
        playback: paused(),
    };
    alone.handle_sync_message("host".to_string(), empty, T, MS);
    assert_eq!(shown(&alone).participants, vec![participant("me", "Lisa", false)]);
    assert_eq!(shown(&alone).host_peer_id, "host");
}

#[test]
fn a_listener_keeps_its_name_when_the_host_tells_the_room_again() {
    let mut session = listener_at(0);
    let update = SyncMessage::RoomState {
        room_code: "ABCDEF".to_string(),
        host_peer_id: "host".to_string(),
        participants: vec![participant("host", "Hana", true), participant("peer3", "Ben", false)],
        current_track: None,
        playback: paused(),
    };
    session.handle_sync_message("host".to_string(), update, T, MS);
    assert_eq!(
        shown(&session).participants,
        vec![
            participant("host", "Hana", true),
            participant("peer3", "Ben", false),
            participant("me", "Lisa", false),
        ]
    );
}

#[test]
fn the_host_is_not_let_in_as_a_listener() {
    let mut session = host();
    let before = shown(&session);
    let actions = session.handle_sync_message(
        "host".to_string(),
        SyncMessage::JoinRequest { display_name: "Mallory".to_string() },
        T,
        MS,
    );
    assert!(actions.is_empty());
    assert_eq!(shown(&session), before);
    assert_eq!(before.participants, vec![participant("host", "Hana", true)]);
}

#[test]
fn a_notice_of_joining_that_mistakes_the_host_is_dropped() {
    let mut session = listener_at(0);
    let before = shown(&session);
    // Somebody else marked as host.
    assert!(session
        .handle_sync_message(
            "host".to_string(),
            SyncMessage::ParticipantJoined(participant("peer3", "Pat", true)),
            T,
            MS
        )
        .is_empty());
    // The host not marked as host.
    assert!(session
        .handle_sync_message(
            "host".to_string(),
            SyncMessage::ParticipantJoined(participant("host", "Hana", false)),
            T,
            MS
        )
        .is_empty());
    assert_eq!(shown(&session), before);
    // The host under another name is the host still.
    let renamed = session.handle_sync_message(
        "host".to_string(),
        SyncMessage::ParticipantJoined(participant("host", "Hanna", true)),
        T,
        MS,
    );
    assert_eq!(renamed.len(), 2);
    let hosts: Vec<Participant> =
        shown(&session).participants.into_iter().filter(|p| p.is_host).collect();
    assert_eq!(hosts, vec![participant("host", "Hanna", true)]);
}

#[test]
fn neither_the_host_nor_this_peer_is_told_out_of_the_room() {
    let mut session = listener_at(0);
    let before = shown(&session);
    for peer_id in ["host", "me"] {
        let actions = session.handle_sync_message(
            "host".to_string(),
            SyncMessage::ParticipantLeft { peer_id: peer_id.to_string() },
            T,
            MS,
        );
        assert!(actions.is_empty());
        assert_eq!(shown(&session), before);
    }
    // Word that we ourselves unsubscribed changes nothing either.
    assert!(session
        .handle_network_event(NetworkEvent::PeerUnsubscribed { peer_id: "me".to_string() }, T, MS)
        .is_empty());
    assert_eq!(shown(&session), before);

    let mut hosting = host();
    let hosted = shown(&hosting);
    assert!(hosting
        .handle_network_event(NetworkEvent::PeerUnsubscribed { peer_id: "host".to_string() }, T, MS)
        .is_empty());
    assert!(hosting
        .handle_sync_message(
            "host".to_string(),
            SyncMessage::ParticipantLeft { peer_id: "host".to_string() },
            T,
            MS
        )
        .is_empty());
    assert_eq!(shown(&hosting), hosted);
    assert!(hosting.is_host());
}

#[test]
fn joining_is_refused_in_order() {
    // In a room: already in a room, whatever was typed.
    let mut active = listener_at(0);
    assert_eq!(
        active.join_room("no code", "Lisa".to_string()).unwrap_err(),
        CoreError::AlreadyInRoom
    );
    assert_eq!(
        active.join_room("ABCDEF", "Lisa".to_string()).unwrap_err(),
        CoreError::AlreadyInRoom
    );
    assert!(active.is_in_room());

    // On the way into a room: input that is no code is told first.
    let mut joining = Session::new("me".to_string());
    joining.join_room("ABCDEF", "Lisa".to_string()).unwrap();
    assert_eq!(
        joining.join_room("no code", "Lisa".to_string()).unwrap_err(),
        CoreError::NetworkError("Invalid room code".to_string())
    );
    assert_eq!(
        joining.join_room("XYXYXY", "Lisa".to_string()).unwrap_err(),
        CoreError::AlreadyInRoom
    );
    assert_eq!(
        joining.join_request_due("ABCDEF"),
        Some(SyncMessage::JoinRequest { display_name: "Lisa".to_string() })
    );

    let mut creating = Session::new("host".to_string());
    creating.create_room("Hana".to_string()).unwrap();
    assert_eq!(
        creating.join_room("", "Hana".to_string()).unwrap_err(),
        CoreError::NetworkError("Invalid room code".to_string())
    );
    assert!(matches!(creating.room, Room::Creating { .. }));
}

#[test]
fn a_refusal_to_join_can_be_asked_beforehand() {
    assert_eq!(refuse_join(&Room::Idle, "abc-def"), None);
    assert_eq!(
        refuse_join(&Room::Idle, "abc"),
        Some(CoreError::NetworkError("Invalid room code".to_string()))
    );
    let joining =
        Room::Joining { room_code: "ABCDEF".to_string(), display_name: "Lisa".to_string() };
    assert_eq!(refuse_join(&joining, "ABCDEF"), Some(CoreError::AlreadyInRoom));
    assert_eq!(
        refuse_join(&joining, "abc"),
        Some(CoreError::NetworkError("Invalid room code".to_string()))
    );
    let active = listener_at(0);
    assert_eq!(refuse_join(&active.room, "abc"), Some(CoreError::AlreadyInRoom));
}

#[test]
fn a_host_that_was_never_listed_ends_the_room_when_it_unsubscribes() {
    let mut session = Session::new("me".to_string());
    session.join_room("ABCDEF", "Lisa".to_string()).unwrap();
    let told = SyncMessage::RoomState {
        room_code: "ABCDEF".to_string(),
        host_peer_id: "host".to_string(),
        participants: vec![],
        current_track: None,
        playback: paused(),
    };
    session.handle_sync_message("host".to_string(), told, T, MS);
    assert!(session.is_in_room());
    let actions = session
        .handle_network_event(NetworkEvent::PeerUnsubscribed { peer_id: "host".to_string() }, T, MS);
    assert_eq!(
        actions,
        vec![
            Action::Player(PlayerCommand::Pause),
            Action::Notify(Notification::RoomEnded("Host left the room".to_string())),
        ]
    );
    assert!(matches!(session.room, Room::Idle));
}
