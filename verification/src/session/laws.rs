//! What holds of a session whatever happens.

use crate::network::events::NetworkEventView;
use crate::session::engine::SessionView;
use crate::cider::types::NowPlayingView;
use crate::session::handlers::{
    notify, own_participant, player, received_room, sync_status, with_all,
};
use crate::session::timing::{
    expected_position, needs_resync, signed_drift, DRIFT_THRESHOLD_MS,
};
use crate::session::types::{NotificationView, PendingSeek, PlayerCommandView};
use crate::sync::protocol::{ParticipantView, PlaybackInfo, SyncMessageView, TrackInfoView};
use crate::sync::state::{
    lemma_new_room_has_single_host, lemma_transfer_keeps_single_host, RoomStateView, RoomView,
};
use vstd::prelude::*;

verus! {

/// What is taken from the host alone is dropped when it comes from
/// anybody else: a playback command, a hand-over, a membership notice or a
/// heartbeat whose sender is not the host of the room changes nothing and
/// has nothing follow.
pub proof fn lemma_host_only_from_others_is_dropped(
    session: SessionView,
    from: Seq<char>,
    message: SyncMessageView,
    wall_ms: u64,
    now_ns: u64,
)
    requires
        message.host_only(),
        !session.from_host(from),
    ensures
        session.on_sync_message(from, message, wall_ms, now_ns) == session.unchanged(),
        session.on_network_event(NetworkEventView::Message { from, message }, wall_ms, now_ns)
            == session.unchanged(),
{
}

/// A peer that is in a room takes the state of the room from the host
/// alone.
pub proof fn lemma_room_state_from_others_is_dropped(
    session: SessionView,
    from: Seq<char>,
    message: SyncMessageView,
    wall_ms: u64,
    now_ns: u64,
)
    requires
        message is RoomState,
        session.room is Active,
        !session.from_host(from),
    ensures
        session.on_sync_message(from, message, wall_ms, now_ns) == session.unchanged(),
{
}

/// Whether the room of a session, if it is in one, has exactly one
/// participant marked as host, the one that `host_peer_id` names.
pub open spec fn has_single_host(session: SessionView) -> bool {
    session.room matches RoomView::Active(room) ==> room.single_host()
}

/// Whether the room of a session, if it is in one, is the session's own:
/// it names this peer as the local one and has it among its participants.
pub open spec fn has_local_peer(session: SessionView) -> bool {
    session.room matches RoomView::Active(room) ==> room.local_peer_id == session.local_peer_id
        && room.participants.contains_key(room.local_peer_id)
}

/// Whether a list of participants names the host: `host_peer_id` is among
/// them, and it alone is marked as host.
pub open spec fn names_host(participants: Seq<ParticipantView>, host_peer_id: Seq<char>) -> bool {
    &&& exists|i: int|
        0 <= i < participants.len() && (#[trigger] participants[i]).peer_id == host_peer_id
    &&& forall|i: int|
        0 <= i < participants.len() ==> ((#[trigger] participants[i]).is_host
            <==> participants[i].peer_id == host_peer_id)
}

/// Whether what the network tells, where it is a state of the room, names
/// the host of that room.
pub open spec fn room_state_names_host(event: NetworkEventView) -> bool {
    match event {
        NetworkEventView::Message { message, .. } => match message {
            SyncMessageView::RoomState { host_peer_id, participants, .. } => names_host(
                participants,
                host_peer_id,
            ),
            _ => true,
        },
        _ => true,
    }
}

/// A room that is filled from nothing holds the participants that were
/// filed, each peer as it was filed, and nobody else; nothing else of the
/// room changes.
pub proof fn lemma_with_all_holds_the_filed(room: RoomStateView, participants: Seq<ParticipantView>)
    requires
        room.participants == Map::<Seq<char>, ParticipantView>::empty(),
    ensures
        with_all(room, participants) == (RoomStateView {
            participants: with_all(room, participants).participants,
            order: with_all(room, participants).order,
            ..room
        }),
        forall|i: int|
            0 <= i < participants.len() ==> with_all(room, participants).participants.contains_key(
                (#[trigger] participants[i]).peer_id,
            ),
        forall|peer_id: Seq<char>| #[trigger]
            with_all(room, participants).participants.contains_key(peer_id) ==> exists|i: int|
                0 <= i < participants.len() && #[trigger] participants[i] == with_all(
                    room,
                    participants,
                ).participants[peer_id] && participants[i].peer_id == peer_id,
    decreases participants.len(),
{
    if participants.len() > 0 {
        let before = participants.drop_last();
        let last = participants.last();
        lemma_with_all_holds_the_filed(room, before);
        let filled = with_all(room, before);
        let all = with_all(room, participants);
        assert(all == filled.with_participant(last));
        assert forall|i: int| 0 <= i < participants.len() implies all.participants.contains_key(
            (#[trigger] participants[i]).peer_id,
        ) by {
            if i < before.len() {
                assert(before[i] == participants[i]);
            }
        }
        assert forall|peer_id: Seq<char>| #[trigger]
            all.participants.contains_key(peer_id) implies exists|i: int|
            0 <= i < participants.len() && #[trigger] participants[i] == all.participants[peer_id]
                && participants[i].peer_id == peer_id by {
            if peer_id == last.peer_id {
                assert(participants[participants.len() - 1] == last);
            } else {
                assert(filled.participants.contains_key(peer_id));
                let i = choose|i: int|
                    0 <= i < before.len() && #[trigger] before[i] == filled.participants[peer_id]
                        && before[i].peer_id == peer_id;
                assert(participants[i] == before[i]);
            }
        }
    }
}

/// A state of the room that names the host gives a room with exactly one
/// participant marked as host, the one that it names, whoever receives it.
pub proof fn lemma_received_room_has_single_host(
    room_code: Seq<char>,
    local_peer_id: Seq<char>,
    display_name: Seq<char>,
    host_peer_id: Seq<char>,
    participants: Seq<ParticipantView>,
    current_track: Option<TrackInfoView>,
    playback: PlaybackInfo,
    now_ns: u64,
)
    requires
        names_host(participants, host_peer_id),
    ensures
        received_room(
            room_code,
            local_peer_id,
            display_name,
            host_peer_id,
            participants,
            current_track,
            playback,
            now_ns,
        ).single_host(),
{
    let empty = RoomStateView {
        room_code,
        local_peer_id,
        host_peer_id,
        participants: Map::empty(),
        order: Seq::empty(),
        current_track,
        playback,
        last_heartbeat_ns: now_ns,
    };
    lemma_with_all_holds_the_filed(empty, participants);
    let filled = with_all(empty, participants);
    let own = own_participant(local_peer_id, display_name, host_peer_id);
    let received = filled.with_participant(own);
    let host = choose|i: int|
        0 <= i < participants.len() && (#[trigger] participants[i]).peer_id == host_peer_id;
    assert(filled.participants.contains_key(participants[host].peer_id));
    assert forall|peer_id: Seq<char>| #[trigger]
        received.participants.contains_key(peer_id) implies (received.participants[peer_id].is_host
        <==> peer_id == received.host_peer_id) by {
        if peer_id != local_peer_id {
            assert(filled.participants.contains_key(peer_id));
        }
    }
}

/// A room has exactly one participant marked as host, the one that
/// `host_peer_id` names, and what the network tells keeps it so: whoever
/// comes, goes or is handed the room, and whatever is told for the host
/// alone to tell. A state of the room is taken as it is told, so it keeps
/// the room so where it names the host.
pub proof fn lemma_event_keeps_single_host(
    session: SessionView,
    event: NetworkEventView,
    wall_ms: u64,
    now_ns: u64,
)
    requires
        has_single_host(session),
        room_state_names_host(event),
    ensures
        has_single_host(session.on_network_event(event, wall_ms, now_ns).session),
{
    match event {
        NetworkEventView::Message { from, message } => {
            match message {
                SyncMessageView::RoomState {
                    room_code,
                    host_peer_id,
                    participants,
                    current_track,
                    playback,
                } => {
                    lemma_received_room_has_single_host(
                        room_code,
                        session.local_peer_id,
                        session.own_display_name(),
                        host_peer_id,
                        participants,
                        current_track,
                        playback,
                        now_ns,
                    );
                },
                SyncMessageView::TransferHost { new_host_peer_id } => {
                    if let RoomView::Active(room) = session.room {
                        lemma_transfer_keeps_single_host(room, new_host_peer_id);
                    }
                },
                _ => {},
            }
        },
        _ => {},
    }
}

/// A peer is among the participants of its own room, and what the network
/// tells keeps it so.
pub proof fn lemma_event_keeps_local_peer(
    session: SessionView,
    event: NetworkEventView,
    wall_ms: u64,
    now_ns: u64,
)
    requires
        has_local_peer(session),
    ensures
        has_local_peer(session.on_network_event(event, wall_ms, now_ns).session),
{
    match event {
        NetworkEventView::Message { from, message } => {
            match message {
                SyncMessageView::RoomState {
                    room_code,
                    host_peer_id,
                    participants,
                    current_track,
                    playback,
                } => {
                    lemma_with_all_holds_the_filed(
                        RoomStateView {
                            room_code,
                            local_peer_id: session.local_peer_id,
                            host_peer_id,
                            participants: Map::empty(),
                            order: Seq::empty(),
                            current_track,
                            playback,
                            last_heartbeat_ns: now_ns,
                        },
                        participants,
                    );
                },
                SyncMessageView::TransferHost { new_host_peer_id } => {
                    if let RoomView::Active(room) = session.room {
                        assert(room.host_transferred(new_host_peer_id).participants.dom()
                            =~= room.participants.dom());
                    }
                },
                _ => {},
            }
        },
        _ => {},
    }
}

/// A peer that is let into a room is among its participants under the
/// name with which it set out, whether the host named it or not, and the
/// room is the one that the host told: its code, its host, what it plays.
pub proof fn lemma_joined_peer_is_in_its_room(
    session: SessionView,
    room_code: Seq<char>,
    host_peer_id: Seq<char>,
    participants: Seq<ParticipantView>,
    current_track: Option<TrackInfoView>,
    playback: PlaybackInfo,
    now_ns: u64,
)
    requires
        session.room matches RoomView::Joining { room_code: ours, .. } && ours == room_code,
    ensures
        session.on_room_state(
            room_code,
            host_peer_id,
            participants,
            current_track,
            playback,
            now_ns,
        ).session.room matches RoomView::Active(room) && {
            &&& room.room_code == room_code
            &&& room.local_peer_id == session.local_peer_id
            &&& room.host_peer_id == host_peer_id
            &&& room.current_track == current_track
            &&& room.playback == playback
            &&& room.participants.contains_key(session.local_peer_id)
            &&& room.participants[session.local_peer_id] == own_participant(
                session.local_peer_id,
                session.room->Joining_display_name,
                host_peer_id,
            )
            &&& forall|i: int|
                0 <= i < participants.len() ==> room.participants.contains_key(
                    (#[trigger] participants[i]).peer_id,
                )
        },
{
    let empty = RoomStateView {
        room_code,
        local_peer_id: session.local_peer_id,
        host_peer_id,
        participants: Map::empty(),
        order: Seq::empty(),
        current_track,
        playback,
        last_heartbeat_ns: now_ns,
    };
    lemma_with_all_holds_the_filed(empty, participants);
}

/// Neither the player's answers nor the passing of time touch who is in
/// the room: they keep a room at its one host.
pub proof fn lemma_player_and_time_keep_single_host(
    session: SessionView,
    heartbeat: PlaybackInfo,
    latency_ms: u64,
    seek_offset_ms: u64,
    position_ms: u64,
    local_playing: Option<bool>,
    pending: PendingSeek,
    playing: NowPlayingView,
    is_playing: bool,
    wall_ms: u64,
    now_ns: u64,
)
    requires
        has_single_host(session),
    ensures
        has_single_host(session.on_track_loaded(pending, wall_ms).session),
        has_single_host(
            session.on_heartbeat_observed(
                heartbeat,
                latency_ms,
                seek_offset_ms,
                position_ms,
                wall_ms,
            ).session,
        ),
        has_single_host(session.on_heartbeat_finished(heartbeat, local_playing, now_ns).session),
        has_single_host(session.on_host_polled(playing, is_playing, wall_ms, now_ns).session),
        has_single_host(session.on_ping_tick(wall_ms, now_ns).session),
{
}

/// A room begins with one host: whoever makes a room is its host, and the
/// only participant marked so.
pub proof fn lemma_created_room_has_single_host(
    session: SessionView,
    room_code: Seq<char>,
    now_ns: u64,
)
    requires
        has_single_host(session),
    ensures
        has_single_host(session.on_room_created(room_code, now_ns).session),
{
    match session.room {
        RoomView::Creating { display_name } => {
            lemma_new_room_has_single_host(
                room_code,
                session.local_peer_id,
                display_name,
                now_ns,
            );
        },
        _ => {},
    }
}

/// Neither the player's answers nor the passing of time touch who is in
/// the room: they keep a peer among the participants of its own room.
pub proof fn lemma_player_and_time_keep_local_peer(
    session: SessionView,
    heartbeat: PlaybackInfo,
    latency_ms: u64,
    seek_offset_ms: u64,
    position_ms: u64,
    local_playing: Option<bool>,
    pending: PendingSeek,
    playing: NowPlayingView,
    is_playing: bool,
    wall_ms: u64,
    now_ns: u64,
)
    requires
        has_local_peer(session),
    ensures
        has_local_peer(session.on_track_loaded(pending, wall_ms).session),
        has_local_peer(
            session.on_heartbeat_observed(
                heartbeat,
                latency_ms,
                seek_offset_ms,
                position_ms,
                wall_ms,
            ).session,
        ),
        has_local_peer(session.on_heartbeat_finished(heartbeat, local_playing, now_ns).session),
        has_local_peer(session.on_host_polled(playing, is_playing, wall_ms, now_ns).session),
        has_local_peer(session.on_ping_tick(wall_ms, now_ns).session),
{
}

/// Whoever makes a room is among its participants.
pub proof fn lemma_created_room_has_local_peer(
    session: SessionView,
    room_code: Seq<char>,
    now_ns: u64,
)
    requires
        has_local_peer(session),
    ensures
        has_local_peer(session.on_room_created(room_code, now_ns).session),
{
}

/// When the host of a room unsubscribes, the room is over for a listener:
/// it is in no room, its player is paused, and its user is told that the
/// host left, whether the host was among the participants or not.
pub proof fn lemma_host_unsubscribed_ends_room(
    session: SessionView,
    peer_id: Seq<char>,
    wall_ms: u64,
    now_ns: u64,
)
    requires
        session.is_listener(),
        session.from_host(peer_id),
    ensures
        session.on_network_event(
            NetworkEventView::PeerUnsubscribed { peer_id },
            wall_ms,
            now_ns,
        ).session == session.with_room(RoomView::Idle),
        session.on_network_event(
            NetworkEventView::PeerUnsubscribed { peer_id },
            wall_ms,
            now_ns,
        ).actions == (if session.room->Active_0.participants.contains_key(peer_id) {
            seq![notify(NotificationView::ParticipantLeft(peer_id))]
        } else {
            Seq::empty()
        }) + seq![
            player(PlayerCommandView::Pause),
            notify(NotificationView::RoomEnded("Host left the room"@)),
        ],
{
    let step = session.on_network_event(
        NetworkEventView::PeerUnsubscribed { peer_id },
        wall_ms,
        now_ns,
    );
    let left = if session.room->Active_0.participants.contains_key(peer_id) {
        seq![notify(NotificationView::ParticipantLeft(peer_id))]
    } else {
        Seq::empty()
    };
    assert(step.actions =~= left + seq![
        player(PlayerCommandView::Pause),
        notify(NotificationView::RoomEnded("Host left the room"@)),
    ]);
}

/// The threshold is exclusive: a drift of exactly `DRIFT_THRESHOLD_MS` to
/// either side does not make a listener seek, one millisecond more does.
pub proof fn lemma_threshold_is_exclusive()
    ensures
        !needs_resync(3000i64),
        !needs_resync(-3000i64),
        needs_resync(3001i64),
        needs_resync(-3001i64),
        forall|drift_ms: i64|
            needs_resync(drift_ms) <==> drift_ms > DRIFT_THRESHOLD_MS || drift_ms
                < -DRIFT_THRESHOLD_MS,
{
}

/// A listener whose drift is within the threshold does not seek on a
/// heartbeat: the user is shown the status, the drift is measured if a
/// seek awaited it, and no seek is noted.
pub proof fn lemma_no_seek_within_threshold(
    session: SessionView,
    heartbeat: PlaybackInfo,
    latency_ms: u64,
    seek_offset_ms: u64,
    position_ms: u64,
    wall_ms: u64,
)
    requires
        !needs_resync(
            signed_drift(position_ms, expected_position(heartbeat, wall_ms, latency_ms)),
        ),
    ensures
        session.on_heartbeat_observed(
            heartbeat,
            latency_ms,
            seek_offset_ms,
            position_ms,
            wall_ms,
        ).actions == seq![
            notify(
                NotificationView::SyncStatus(
                    sync_status(
                        session.calibrator,
                        heartbeat,
                        latency_ms,
                        seek_offset_ms,
                        position_ms,
                        wall_ms,
                    ),
                ),
            ),
        ],
        !session.on_heartbeat_observed(
            heartbeat,
            latency_ms,
            seek_offset_ms,
            position_ms,
            wall_ms,
        ).session.calibrator.awaiting,
{
}

/// Whether a peer may go from `before` to `after`: it stays where it is;
/// from idle it sets out to make or to join a room; from there it gets into
/// the room or gives up; and from a room it goes back to idle. Between
/// making and joining there is no way.
pub open spec fn may_follow(before: RoomView, after: RoomView) -> bool {
    match before {
        RoomView::Idle => after is Idle || after is Creating || after is Joining,
        RoomView::Creating { .. } => after is Creating || after is Active || after is Idle,
        RoomView::Joining { .. } => after is Joining || after is Active || after is Idle,
        RoomView::Active(_) => after is Active || after is Idle,
    }
}

/// Whatever the network, the player or the clock bring, a peer moves
/// between idle, creating, joining and active only along the ways that
/// there are.
pub proof fn lemma_lifecycle(
    session: SessionView,
    event: NetworkEventView,
    heartbeat: PlaybackInfo,
    latency_ms: u64,
    seek_offset_ms: u64,
    position_ms: u64,
    local_playing: Option<bool>,
    pending: PendingSeek,
    playing: NowPlayingView,
    is_playing: bool,
    room_code: Seq<char>,
    wall_ms: u64,
    now_ns: u64,
)
    ensures
        may_follow(session.room, session.on_network_event(event, wall_ms, now_ns).session.room),
        may_follow(session.room, session.on_track_loaded(pending, wall_ms).session.room),
        may_follow(
            session.room,
            session.on_heartbeat_observed(
                heartbeat,
                latency_ms,
                seek_offset_ms,
                position_ms,
                wall_ms,
            ).session.room,
        ),
        may_follow(
            session.room,
            session.on_heartbeat_finished(heartbeat, local_playing, now_ns).session.room,
        ),
        may_follow(
            session.room,
            session.on_host_polled(playing, is_playing, wall_ms, now_ns).session.room,
        ),
        may_follow(session.room, session.on_ping_tick(wall_ms, now_ns).session.room),
        may_follow(session.room, session.on_room_created(room_code, now_ns).session.room),
        !(session.room is Creating) ==> !(session.on_network_event(
            event,
            wall_ms,
            now_ns,
        ).session.room is Creating),
        session.room is Creating ==> session.on_network_event(event, wall_ms, now_ns).session.room
            is Creating,
{
}

} // verus!
