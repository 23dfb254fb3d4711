//! What a session does when the network tells it something.
//!
//! Membership notices, playback commands and heartbeats are taken from the
//! host alone. A peer that is joining takes the state of the room from
//! whoever sends it, since it does not know the host yet; a peer that is in
//! a room takes it from the host alone. What comes from anybody else is
//! dropped: nothing changes and nothing follows.
//!
//! Whoever comes and goes, a room keeps its host and this peer among its
//! participants, and the host alone marked as host: a request or a notice
//! that would have it otherwise is dropped, and a peer that takes the
//! state of the room over keeps itself in it under its own name.

use crate::latency::TrackerState;
use crate::network::events::{NetworkEvent, NetworkEventView};
use crate::seek_calibrator::{CalibrationSample, CalibratorState};
use crate::session::engine::{
    broadcast, room_changed, room_state_message, room_state_of, send, tell_room_changed, Session,
    SessionView, Step,
};
use crate::session::timing::{
    drift_ms, drift_needs_resync, elapsed_ms, elapsed_since, expected_position,
    expected_position_ms, needs_resync, pending_seek_position, pending_seek_position_ms,
    seek_position, seek_position_ms, signed_drift, PLAY_SETTLE_MS,
};
use crate::session::types::{
    actions_view, emit, no_actions, shown_track, Action, ActionView, Notification,
    NotificationView, PendingSeek, PlayerCommand, PlayerCommandView, SyncStatus, SyncStatusView,
    TrackInfo as ShownTrack,
};
use crate::string_map::StringMap;
use crate::sync::protocol::{
    option_track_view, participants_view, Participant, ParticipantView, PlaybackInfo, SyncMessage,
    SyncMessageView, TrackInfo, TrackInfoView,
};
use crate::sync::state::{Room, RoomState, RoomStateView, RoomView};
use vstd::prelude::*;
use vstd::string::StringExecFns;

verus! {

/// A peer that subscribed and has not said its name yet.
pub open spec fn unknown_listener(peer_id: Seq<char>) -> ParticipantView {
    ParticipantView { peer_id, display_name: "?"@, is_host: false }
}

/// The action of telling the user something.
pub open spec fn notify(notification: NotificationView) -> ActionView {
    ActionView::Notify(notification)
}

/// The action of telling the player something.
pub open spec fn player(command: PlayerCommandView) -> ActionView {
    ActionView::Player(command)
}

/// `room` with each of `participants` filed under its peer id, one after
/// the other.
pub open spec fn with_all(room: RoomStateView, participants: Seq<ParticipantView>) -> RoomStateView
    decreases participants.len(),
{
    if participants.len() == 0 {
        room
    } else {
        with_all(room, participants.drop_last()).with_participant(participants.last())
    }
}

/// This peer as it files itself in a room whose host is `host_peer_id`:
/// under its own name, and marked as host where it is the host.
pub open spec fn own_participant(
    local_peer_id: Seq<char>,
    display_name: Seq<char>,
    host_peer_id: Seq<char>,
) -> ParticipantView {
    ParticipantView {
        peer_id: local_peer_id,
        display_name,
        is_host: local_peer_id == host_peer_id,
    }
}

/// The room as a listener holds it after the host told the whole room at
/// `now_ns`: everybody whom the host named, and this peer under the name
/// `display_name`, whether the host named it or not.
pub open spec fn received_room(
    room_code: Seq<char>,
    local_peer_id: Seq<char>,
    display_name: Seq<char>,
    host_peer_id: Seq<char>,
    participants: Seq<ParticipantView>,
    current_track: Option<TrackInfoView>,
    playback: PlaybackInfo,
    now_ns: u64,
) -> RoomStateView {
    with_all(
        RoomStateView {
            room_code,
            local_peer_id,
            host_peer_id,
            participants: Map::empty(),
            order: Seq::empty(),
            current_track,
            playback,
            last_heartbeat_ns: now_ns,
        },
        participants,
    ).with_participant(own_participant(local_peer_id, display_name, host_peer_id))
}

/// What a heartbeat shows of how well the listener follows.
pub open spec fn sync_status(
    calibrator: CalibratorState,
    heartbeat: PlaybackInfo,
    latency_ms: u64,
    seek_offset_ms: u64,
    position_ms: u64,
    wall_ms: u64,
) -> SyncStatusView {
    let drift = signed_drift(position_ms, expected_position(heartbeat, wall_ms, latency_ms));
    SyncStatusView {
        drift_ms: drift,
        latency_ms,
        elapsed_ms: elapsed_since(heartbeat.timestamp_ms, wall_ms),
        seek_offset_ms,
        calibration_pending: calibrator.awaiting,
        next_calibration_sample: if calibrator.awaiting {
            match calibrator.preview(drift as int) {
                Some(ideal) => Some(ideal as i64),
                None => None,
            }
        } else {
            None
        },
        sample_history: calibrator.history,
    }
}

impl SessionView {
    /// Whether a message from `from` is taken in: requests to join, answers
    /// to them and latency probes from anybody; the state of the room from
    /// anybody while joining and from the host while in a room; everything
    /// else from the host alone.
    pub open spec fn authorized(self, from: Seq<char>, message: SyncMessageView) -> bool {
        match message {
            SyncMessageView::JoinRequest { .. } => true,
            SyncMessageView::JoinResponse { .. } => true,
            SyncMessageView::Ping { .. } => true,
            SyncMessageView::Pong { .. } => true,
            SyncMessageView::RoomState { .. } => self.room is Joining || self.from_host(from),
            _ => self.from_host(from),
        }
    }

    /// A peer subscribed to the room. The host files a peer that it does
    /// not know as a listener without a name, tells the user, and tells the
    /// whole room to the room.
    pub open spec fn on_peer_subscribed(self, peer_id: Seq<char>) -> Step {
        match self.room {
            RoomView::Active(room) => {
                if room.is_host() {
                    let known = peer_id == room.local_peer_id || room.participants.contains_key(
                        peer_id,
                    );
                    let next = if known {
                        room
                    } else {
                        room.with_participant(unknown_listener(peer_id))
                    };
                    let joined = if known {
                        Seq::empty()
                    } else {
                        seq![notify(NotificationView::ParticipantJoined(unknown_listener(peer_id)))]
                    };
                    Step {
                        session: self.with_room(RoomView::Active(next)),
                        actions: joined.push(broadcast(room_state_message(next))),
                    }
                } else {
                    self.unchanged()
                }
            },
            _ => self.unchanged(),
        }
    }

    /// A peer unsubscribed from the room. It is taken out of the room, and
    /// the user is told if it was among the participants. If it is the
    /// host of a room in which this peer listens, the room is over: the
    /// player is paused, the user is told, and this peer is in no room.
    /// Word that this peer itself unsubscribed is dropped: a peer stays in
    /// its own room until it leaves it.
    pub open spec fn on_peer_unsubscribed(self, peer_id: Seq<char>) -> Step {
        match self.room {
            RoomView::Active(room) => {
                if peer_id == room.local_peer_id {
                    self.unchanged()
                } else if peer_id == room.host_peer_id {
                    let left = if room.participants.contains_key(peer_id) {
                        seq![notify(NotificationView::ParticipantLeft(peer_id))]
                    } else {
                        Seq::empty()
                    };
                    Step {
                        session: self.with_room(RoomView::Idle),
                        actions: left.push(player(PlayerCommandView::Pause)).push(
                            notify(NotificationView::RoomEnded("Host left the room"@)),
                        ),
                    }
                } else if !room.participants.contains_key(peer_id) {
                    Step {
                        session: self.with_room(
                            RoomView::Active(room.without_participant(peer_id)),
                        ),
                        actions: Seq::empty(),
                    }
                } else {
                    Step {
                        session: self.with_room(
                            RoomView::Active(room.without_participant(peer_id)),
                        ),
                        actions: seq![
                            notify(NotificationView::ParticipantLeft(peer_id)),
                            room_changed(room.without_participant(peer_id)),
                        ],
                    }
                }
            },
            _ => self.unchanged(),
        }
    }

    /// A peer asked to be let in. The host files it under its name as a
    /// listener, tells the user of a peer that is new, and tells the whole
    /// room to the room. A request under the host's own peer id is dropped:
    /// the host is in its room, and as the host.
    pub open spec fn on_join_request(self, from: Seq<char>, display_name: Seq<char>) -> Step {
        match self.room {
            RoomView::Active(room) => {
                if room.is_host() && from != room.local_peer_id {
                    let participant = ParticipantView {
                        peer_id: from,
                        display_name,
                        is_host: false,
                    };
                    let next = room.with_participant(participant);
                    let joined = if room.participants.contains_key(from) {
                        Seq::empty()
                    } else {
                        seq![notify(NotificationView::ParticipantJoined(participant))]
                    };
                    Step {
                        session: self.with_room(RoomView::Active(next)),
                        actions: joined.push(room_changed(next)).push(
                            broadcast(room_state_message(next)),
                        ),
                    }
                } else {
                    self.unchanged()
                }
            },
            _ => self.unchanged(),
        }
    }

    /// The name under which this peer goes in its room.
    pub open spec fn own_display_name(self) -> Seq<char> {
        match self.room {
            RoomView::Joining { display_name, .. } => display_name,
            RoomView::Active(room) => {
                if room.participants.contains_key(room.local_peer_id) {
                    room.participants[room.local_peer_id].display_name
                } else {
                    "Listener"@
                }
            },
            _ => "Listener"@,
        }
    }

    /// Whether the state of the room with the code `room_code` is for
    /// this peer: it joins that room, or it is a listener in it.
    pub open spec fn awaits_room(self, room_code: Seq<char>) -> bool {
        match self.room {
            RoomView::Joining { room_code: ours, .. } => room_code == ours,
            RoomView::Active(room) => room_code == room.room_code && !room.is_host(),
            _ => false,
        }
    }

    /// The host told the whole room. Its latency is what counts from now
    /// on. A peer for which the room is takes it over and keeps itself in
    /// it under its own name, whether the host named it or not. One that
    /// was joining is in the room now: it asks once more to be let in, and
    /// has its player load what the host plays, to seek once it is loaded.
    pub open spec fn on_room_state(
        self,
        room_code: Seq<char>,
        host_peer_id: Seq<char>,
        participants: Seq<ParticipantView>,
        current_track: Option<TrackInfoView>,
        playback: PlaybackInfo,
        now_ns: u64,
    ) -> Step {
        let session = SessionView {
            latency: TrackerState { host: Some(host_peer_id), ..self.latency },
            ..self
        };
        if !self.awaits_room(room_code) {
            session.unchanged()
        } else {
            let next = received_room(
                room_code,
                self.local_peer_id,
                self.own_display_name(),
                host_peer_id,
                participants,
                current_track,
                playback,
                now_ns,
            );
            let shown = seq![room_changed(next)];
            let actions = if self.room is Joining {
                let asked = shown.push(notify(NotificationView::Connected)).push(
                    broadcast(SyncMessageView::JoinRequest { display_name: self.own_display_name() }),
                );
                match current_track {
                    Some(track) => asked.push(
                        player(PlayerCommandView::PlayItem { song_id: track.song_id }),
                    ).push(
                        ActionView::AwaitTrack {
                            song_id: track.song_id,
                            then: PendingSeek {
                                position_ms: playback.position_ms,
                                timestamp_ms: playback.timestamp_ms,
                                extrapolate: playback.is_playing,
                            },
                        },
                    ),
                    None => asked,
                }
            } else {
                shown
            };
            Step { session: session.with_room(RoomView::Active(next)), actions }
        }
    }

    /// The host told that somebody joined. The notice is dropped where its
    /// mark disagrees with who the host is: where it marks as host somebody
    /// who is not the host, or does not mark the host.
    pub open spec fn on_participant_joined(self, participant: ParticipantView) -> Step {
        match self.room {
            RoomView::Active(room) => {
                if participant.is_host == (participant.peer_id == room.host_peer_id) {
                    Step {
                        session: self.with_room(
                            RoomView::Active(room.with_participant(participant)),
                        ),
                        actions: seq![
                            notify(NotificationView::ParticipantJoined(participant)),
                            room_changed(room.with_participant(participant)),
                        ],
                    }
                } else {
                    self.unchanged()
                }
            },
            _ => self.unchanged(),
        }
    }

    /// The host told that somebody left. The notice is dropped where it
    /// names the host or this peer: the host goes by unsubscribing or by
    /// its silence, and a peer stays in its own room until it leaves it.
    pub open spec fn on_participant_left(self, peer_id: Seq<char>) -> Step {
        match self.room {
            RoomView::Active(room) => {
                if peer_id == room.host_peer_id || peer_id == room.local_peer_id {
                    self.unchanged()
                } else {
                    Step {
                        session: self.with_room(
                            RoomView::Active(room.without_participant(peer_id)),
                        ),
                        actions: seq![
                            notify(NotificationView::ParticipantLeft(peer_id)),
                            room_changed(room.without_participant(peer_id)),
                        ],
                    }
                }
            },
            _ => self.unchanged(),
        }
    }

    /// The host handed the room over.
    pub open spec fn on_transfer_host(self, new_host_peer_id: Seq<char>) -> Step {
        match self.room {
            RoomView::Active(room) => Step {
                session: self.with_room(
                    RoomView::Active(room.host_transferred(new_host_peer_id)),
                ),
                actions: seq![room_changed(room.host_transferred(new_host_peer_id))],
            },
            _ => self.unchanged(),
        }
    }

    /// The session after a seek was made.
    pub open spec fn seek_marked(self) -> SessionView {
        SessionView { calibrator: self.calibrator.mark(), ..self }
    }

    /// The host started a track. A listener has its player play it, seeks
    /// to where the host said plus the seek offset, and notes the seek.
    pub open spec fn on_play(self, track: TrackInfoView, position_ms: u64) -> Step {
        if self.is_listener() {
            Step {
                session: self.seek_marked(),
                actions: seq![
                    player(PlayerCommandView::PlayItem { song_id: track.song_id }),
                    ActionView::Wait { millis: PLAY_SETTLE_MS },
                    player(
                        PlayerCommandView::Seek {
                            position_ms: seek_position(
                                position_ms,
                                self.calibrator.offset_ms() as u64,
                            ),
                        },
                    ),
                    player(PlayerCommandView::Play),
                ],
            }
        } else {
            self.unchanged()
        }
    }

    /// The host paused. A listener pauses and seeks to where the host
    /// stands: a paused position is taken as it is.
    pub open spec fn on_pause(self, position_ms: u64) -> Step {
        if self.is_listener() {
            Step {
                session: self,
                actions: seq![
                    player(PlayerCommandView::Pause),
                    player(PlayerCommandView::Seek { position_ms }),
                ],
            }
        } else {
            self.unchanged()
        }
    }

    /// The host moved within the track. A listener seeks to where the host
    /// said plus the seek offset, and notes the seek.
    pub open spec fn on_seek(self, position_ms: u64) -> Step {
        if self.is_listener() {
            Step {
                session: self.seek_marked(),
                actions: seq![
                    player(
                        PlayerCommandView::Seek {
                            position_ms: seek_position(
                                position_ms,
                                self.calibrator.offset_ms() as u64,
                            ),
                        },
                    ),
                ],
            }
        } else {
            self.unchanged()
        }
    }

    /// The host went on to another track. A listener has its player load
    /// it, to seek once it is loaded. Whoever is in the room notes the
    /// track and tells the user.
    pub open spec fn on_track_change(
        self,
        track: TrackInfoView,
        position_ms: u64,
        timestamp_ms: u64,
    ) -> Step {
        let changed = notify(NotificationView::TrackChanged(Some(shown_track(track))));
        match self.room {
            RoomView::Active(room) => {
                let next = RoomStateView { current_track: Some(track), ..room };
                Step {
                    session: self.with_room(RoomView::Active(next)),
                    actions: if room.is_host() {
                        seq![changed]
                    } else {
                        seq![
                            player(PlayerCommandView::PlayItem { song_id: track.song_id }),
                            ActionView::AwaitTrack {
                                song_id: track.song_id,
                                then: PendingSeek { position_ms, timestamp_ms, extrapolate: true },
                            },
                            changed,
                        ]
                    },
                }
            },
            _ => self.unchanged(),
        }
    }

    /// The host told where it is. A listener has its player asked where it
    /// stands, with the latency and the seek offset as they are now.
    pub open spec fn on_heartbeat(self, playback: PlaybackInfo) -> Step {
        if self.is_listener() {
            Step {
                session: self,
                actions: seq![
                    ActionView::ObservePlayback {
                        heartbeat: playback,
                        latency_ms: self.latency.host_latency() as u64,
                        seek_offset_ms: self.calibrator.offset_ms() as u64,
                    },
                ],
            }
        } else {
            self.unchanged()
        }
    }

    /// Somebody probes the latency: the probe is answered with the time at
    /// which it came in.
    pub open spec fn on_ping(self, sent_at_ms: u64, wall_ms: u64) -> Step {
        Step {
            session: self,
            actions: seq![
                broadcast(
                    SyncMessageView::Pong { ping_sent_at_ms: sent_at_ms, received_at_ms: wall_ms },
                ),
            ],
        }
    }

    /// An answer to a probe came in: its round trip is taken in.
    pub open spec fn on_pong(self, from: Seq<char>, ping_sent_at_ms: u64, now_ns: u64) -> Step {
        Step {
            session: SessionView {
                latency: self.latency.pong_handled(from, ping_sent_at_ms, now_ns),
                ..self
            },
            actions: Seq::empty(),
        }
    }

    /// What a message that is taken in brings about.
    pub open spec fn on_accepted_message(
        self,
        from: Seq<char>,
        message: SyncMessageView,
        wall_ms: u64,
        now_ns: u64,
    ) -> Step {
        match message {
            SyncMessageView::RoomState {
                room_code,
                host_peer_id,
                participants,
                current_track,
                playback,
            } => self.on_room_state(
                room_code,
                host_peer_id,
                participants,
                current_track,
                playback,
                now_ns,
            ),
            SyncMessageView::JoinRequest { display_name } => self.on_join_request(
                from,
                display_name,
            ),
            SyncMessageView::JoinResponse { .. } => self.unchanged(),
            SyncMessageView::ParticipantJoined(participant) => self.on_participant_joined(
                participant,
            ),
            SyncMessageView::ParticipantLeft { peer_id } => self.on_participant_left(peer_id),
            SyncMessageView::TransferHost { new_host_peer_id } => self.on_transfer_host(
                new_host_peer_id,
            ),
            SyncMessageView::Play { track, position_ms, .. } => self.on_play(track, position_ms),
            SyncMessageView::Pause { position_ms, .. } => self.on_pause(position_ms),
            SyncMessageView::Seek { position_ms, .. } => self.on_seek(position_ms),
            SyncMessageView::TrackChange { track, position_ms, timestamp_ms } => {
                self.on_track_change(track, position_ms, timestamp_ms)
            },
            SyncMessageView::Ping { sent_at_ms } => self.on_ping(sent_at_ms, wall_ms),
            SyncMessageView::Pong { ping_sent_at_ms, .. } => self.on_pong(
                from,
                ping_sent_at_ms,
                now_ns,
            ),
            SyncMessageView::Heartbeat { playback, .. } => self.on_heartbeat(playback),
        }
    }

    /// What a message from `from` brings about: nothing where it is not
    /// taken in.
    pub open spec fn on_sync_message(
        self,
        from: Seq<char>,
        message: SyncMessageView,
        wall_ms: u64,
        now_ns: u64,
    ) -> Step {
        if self.authorized(from, message) {
            self.on_accepted_message(from, message, wall_ms, now_ns)
        } else {
            self.unchanged()
        }
    }

    /// What something that the network tells brings about.
    pub open spec fn on_network_event(self, event: NetworkEventView, wall_ms: u64, now_ns: u64) -> Step {
        match event {
            NetworkEventView::PeerSubscribed { peer_id } => self.on_peer_subscribed(peer_id),
            NetworkEventView::PeerUnsubscribed { peer_id } => self.on_peer_unsubscribed(peer_id),
            NetworkEventView::Message { from, message } => self.on_sync_message(
                from,
                message,
                wall_ms,
                now_ns,
            ),
            NetworkEventView::Error(message) => Step {
                session: self,
                actions: seq![notify(NotificationView::Error(message))],
            },
            _ => self.unchanged(),
        }
    }

    /// The player has loaded the track for which a seek was pending, or
    /// the wait for it is over, at `wall_ms`: the seek is made and noted.
    pub open spec fn on_track_loaded(self, pending: PendingSeek, wall_ms: u64) -> Step {
        Step {
            session: self.seek_marked(),
            actions: seq![
                player(
                    PlayerCommandView::Seek {
                        position_ms: pending_seek_position(
                            pending,
                            wall_ms,
                            self.calibrator.offset_ms() as u64,
                        ),
                    },
                ),
            ],
        }
    }

    /// The player said at `wall_ms` that it stands at `position_ms`. The
    /// user is shown how well the listener follows; the drift is measured
    /// if a seek awaits its measurement; and if the drift is more than
    /// the threshold, the listener seeks to where the host is plus the
    /// seek offset and notes the seek.
    pub open spec fn on_heartbeat_observed(
        self,
        heartbeat: PlaybackInfo,
        latency_ms: u64,
        seek_offset_ms: u64,
        position_ms: u64,
        wall_ms: u64,
    ) -> Step {
        let expected = expected_position(heartbeat, wall_ms, latency_ms);
        let drift = signed_drift(position_ms, expected);
        let status = notify(
            NotificationView::SyncStatus(
                sync_status(
                    self.calibrator,
                    heartbeat,
                    latency_ms,
                    seek_offset_ms,
                    position_ms,
                    wall_ms,
                ),
            ),
        );
        let measured = self.calibrator.measure(drift);
        if needs_resync(drift) {
            Step {
                session: SessionView { calibrator: measured.mark(), ..self },
                actions: seq![
                    status,
                    player(
                        PlayerCommandView::Seek {
                            position_ms: seek_position(expected, seek_offset_ms),
                        },
                    ),
                ],
            }
        } else {
            Step { session: SessionView { calibrator: measured, ..self }, actions: seq![status] }
        }
    }

    /// The player said whether it plays, or did not answer. A listener
    /// whose player does otherwise than the host has it play or pause,
    /// takes the host's playback in, and tells the user.
    pub open spec fn on_heartbeat_finished(
        self,
        heartbeat: PlaybackInfo,
        local_playing: Option<bool>,
        now_ns: u64,
    ) -> Step {
        match self.room {
            RoomView::Active(room) => {
                if room.is_host() {
                    self.unchanged()
                } else {
                    let changed = notify(NotificationView::PlaybackChanged(heartbeat));
                    Step {
                        session: self.with_room(
                            RoomView::Active(room.playback_updated(heartbeat, now_ns)),
                        ),
                        actions: if local_playing == Some(false) && heartbeat.is_playing {
                            seq![player(PlayerCommandView::Play), changed]
                        } else if local_playing == Some(true) && !heartbeat.is_playing {
                            seq![player(PlayerCommandView::Pause), changed]
                        } else {
                            seq![changed]
                        },
                    }
                }
            },
            _ => self.unchanged(),
        }
    }
}

/// The participant for a peer that subscribed and has not said its name.
fn unknown_listener_of(peer_id: &str) -> (participant: Participant)
    ensures
        participant@ == unknown_listener(peer_id@),
{
    Participant {
        peer_id: String::from_str(peer_id),
        display_name: String::from_str("?"),
        is_host: false,
    }
}

/// The action of telling the player something.
fn tell_player(command: PlayerCommand) -> (action: Action)
    ensures
        action@ == player(command@),
{
    Action::Player(command)
}

/// The action of telling the user something.
fn tell(notification: Notification) -> (action: Action)
    ensures
        action@ == notify(notification@),
{
    Action::Notify(notification)
}

/// The room as a listener holds it after the host told the whole room.
fn receive_room(
    room_code: String,
    local_peer_id: String,
    display_name: String,
    host_peer_id: String,
    participants: &Vec<Participant>,
    current_track: Option<TrackInfo>,
    playback: PlaybackInfo,
    clock: crate::clock::MonotonicClock,
    now_ns: u64,
) -> (room: RoomState)
    ensures
        room@ == received_room(
            room_code@,
            local_peer_id@,
            display_name@,
            host_peer_id@,
            participants_view(participants@),
            option_track_view(current_track),
            playback,
            now_ns,
        ),
{
    let own = Participant {
        peer_id: local_peer_id.clone(),
        display_name,
        is_host: *local_peer_id.as_str() == *host_peer_id.as_str(),
    };
    let mut room = RoomState {
        room_code,
        local_peer_id,
        host_peer_id,
        participants: StringMap::new(),
        current_track,
        playback,
        last_heartbeat_ns: now_ns,
        clock,
    };
    let ghost base = room@;
    let ghost all = participants_view(participants@);
    proof {
        assert(base.participants =~= Map::<Seq<char>, ParticipantView>::empty());
        assert(base.order =~= Seq::<Seq<char>>::empty());
        assert(all.take(0).len() == 0);
    }
    let mut i: usize = 0;
    while i < participants.len()
        invariant
            i <= participants@.len(),
            all == participants_view(participants@),
            room@ == with_all(base, all.take(i as int)),
        decreases participants@.len() - i,
    {
        proof {
            assert(all.take(i + 1).drop_last() == all.take(i as int));
            assert(all.take(i + 1).last() == participants@[i as int]@);
        }
        room.add_participant(participants[i].clone());
        i = i + 1;
    }
    proof {
        assert(all.take(participants@.len() as int) == all);
    }
    room.add_participant(own);
    room
}

impl Session {
    /// Takes the room out of the session, which is in no room until the
    /// room is put back.
    fn take_room(&mut self) -> (room: Room)
        ensures
            room == old(self).room,
            final(self)@ == old(self)@.with_room(RoomView::Idle),
            final(self).clock == old(self).clock,
    {
        let mut room = Room::Idle;
        core::mem::swap(&mut self.room, &mut room);
        room
    }

    /// Whether a message from `from` is taken in.
    pub fn is_authorized(&self, from: &str, message: &SyncMessage) -> (authorized: bool)
        ensures
            authorized == self@.authorized(from@, message@),
    {
        match message {
            SyncMessage::JoinRequest { .. } => true,
            SyncMessage::JoinResponse { .. } => true,
            SyncMessage::Ping { .. } => true,
            SyncMessage::Pong { .. } => true,
            SyncMessage::RoomState { .. } => {
                let joining = match &self.room {
                    Room::Joining { .. } => true,
                    _ => false,
                };
                joining || self.is_from_host(from)
            },
            _ => self.is_from_host(from),
        }
    }

    /// A peer subscribed to the room.
    pub fn handle_peer_subscribed(&mut self, peer_id: String) -> (actions: Vec<Action>)
        ensures
            final(self)@ == old(self)@.on_peer_subscribed(peer_id@).session,
            actions_view(actions@) == old(self)@.on_peer_subscribed(peer_id@).actions,
            final(self).clock == old(self).clock,
    {
        let mut actions = no_actions();
        match self.take_room() {
            Room::Active(mut room) => {
                if room.is_host() {
                    let known = *peer_id.as_str() == *room.local_peer_id.as_str()
                        || room.participants.contains_key(peer_id.as_str());
                    if !known {
                        room.add_participant(unknown_listener_of(peer_id.as_str()));
                        emit(
                            &mut actions,
                            tell(
                                Notification::ParticipantJoined(
                                    unknown_listener_of(peer_id.as_str()),
                                ),
                            ),
                        );
                    }
                    emit(&mut actions, send(room_state_of(&room)));
                }
                self.room = Room::Active(room);
            },
            other => {
                self.room = other;
            },
        }
        actions
    }

    /// A peer unsubscribed from the room.
    pub fn handle_peer_unsubscribed(&mut self, peer_id: String) -> (actions: Vec<Action>)
        ensures
            final(self)@ == old(self)@.on_peer_unsubscribed(peer_id@).session,
            actions_view(actions@) == old(self)@.on_peer_unsubscribed(peer_id@).actions,
            final(self).clock == old(self).clock,
    {
        let mut actions = no_actions();
        match self.take_room() {
            Room::Active(mut room) => {
                let host_leaves = *room.host_peer_id.as_str() == *peer_id.as_str();
                if *peer_id.as_str() == *room.local_peer_id.as_str() {
                    self.room = Room::Active(room);
                } else {
                    let was_there = room.remove_participant(peer_id.as_str()).is_some();
                    if was_there {
                        emit(&mut actions, tell(Notification::ParticipantLeft(peer_id)));
                    }
                    if host_leaves {
                        emit(&mut actions, tell_player(PlayerCommand::Pause));
                        emit(
                            &mut actions,
                            tell(Notification::RoomEnded(String::from_str("Host left the room"))),
                        );
                    } else {
                        if was_there {
                            emit(&mut actions, tell_room_changed(&room));
                        }
                        self.room = Room::Active(room);
                    }
                }
            },
            other => {
                self.room = other;
            },
        }
        actions
    }

    /// A peer asked to be let in.
    pub fn handle_join_request(&mut self, from: String, display_name: String) -> (actions: Vec<
        Action,
    >)
        ensures
            final(self)@ == old(self)@.on_join_request(from@, display_name@).session,
            actions_view(actions@) == old(self)@.on_join_request(from@, display_name@).actions,
            final(self).clock == old(self).clock,
    {
        let mut actions = no_actions();
        match self.take_room() {
            Room::Active(mut room) => {
                if room.is_host() && *from.as_str() != *room.local_peer_id.as_str() {
                    let is_new = !room.participants.contains_key(from.as_str());
                    room.add_participant(
                        Participant {
                            peer_id: from.clone(),
                            display_name: display_name.clone(),
                            is_host: false,
                        },
                    );
                    if is_new {
                        emit(
                            &mut actions,
                            tell(
                                Notification::ParticipantJoined(
                                    Participant { peer_id: from, display_name, is_host: false },
                                ),
                            ),
                        );
                    }
                    emit(&mut actions, tell_room_changed(&room));
                    emit(&mut actions, send(room_state_of(&room)));
                }
                self.room = Room::Active(room);
            },
            other => {
                self.room = other;
            },
        }
        actions
    }

    /// The name under which this peer goes in its room.
    fn own_display_name(&self) -> (name: String)
        ensures
            name@ == self@.own_display_name(),
    {
        match &self.room {
            Room::Joining { display_name, .. } => display_name.clone(),
            Room::Active(room) => {
                match room.participants.get(room.local_peer_id.as_str()) {
                    Some(own) => own.display_name.clone(),
                    None => String::from_str("Listener"),
                }
            },
            _ => String::from_str("Listener"),
        }
    }

    /// Whether the state of the room with the code `room_code` is for this
    /// peer.
    fn awaits_room(&self, room_code: &str) -> (awaited: bool)
        ensures
            awaited == self@.awaits_room(room_code@),
    {
        match &self.room {
            Room::Joining { room_code: ours, .. } => *room_code == *ours.as_str(),
            Room::Active(room) => *room_code == *room.room_code.as_str() && !room.is_host(),
            _ => false,
        }
    }

    /// The host told the whole room at `now_ns`. A peer for which the room
    /// is is in it afterwards, among its participants and under its own
    /// name.
    pub fn handle_room_state(
        &mut self,
        room_code: String,
        host_peer_id: String,
        participants: Vec<Participant>,
        current_track: Option<TrackInfo>,
        playback: PlaybackInfo,
        now_ns: u64,
    ) -> (actions: Vec<Action>)
        ensures
            final(self)@ == old(self)@.on_room_state(
                room_code@,
                host_peer_id@,
                participants_view(participants@),
                option_track_view(current_track),
                playback,
                now_ns,
            ).session,
            actions_view(actions@) == old(self)@.on_room_state(
                room_code@,
                host_peer_id@,
                participants_view(participants@),
                option_track_view(current_track),
                playback,
                now_ns,
            ).actions,
            old(self)@.awaits_room(room_code@) ==> (final(self)@.room matches RoomView::Active(room)
                && room.participants.contains_key(old(self)@.local_peer_id)
                && room.participants[old(self)@.local_peer_id] == own_participant(
                old(self)@.local_peer_id,
                old(self)@.own_display_name(),
                host_peer_id@,
            )),
            final(self).clock == old(self).clock,
    {
        let mut actions = no_actions();
        self.latency.set_host(host_peer_id.clone());
        if !self.awaits_room(room_code.as_str()) {
            return actions;
        }
        let display_name = self.own_display_name();
        let was_joining = match &self.room {
            Room::Joining { .. } => true,
            _ => false,
        };
        let song_id = match &current_track {
            Some(track) => Some(track.song_id.clone()),
            None => None,
        };
        let room = receive_room(
            room_code,
            self.local_peer_id.clone(),
            display_name.clone(),
            host_peer_id,
            &participants,
            current_track,
            playback,
            self.clock,
            now_ns,
        );
        emit(&mut actions, tell_room_changed(&room));
        self.room = Room::Active(room);
        if was_joining {
            emit(&mut actions, tell(Notification::Connected));
            emit(&mut actions, send(SyncMessage::JoinRequest { display_name }));
            match song_id {
                Some(song_id) => {
                    emit(
                        &mut actions,
                        tell_player(PlayerCommand::PlayItem { song_id: song_id.clone() }),
                    );
                    emit(
                        &mut actions,
                        Action::AwaitTrack {
                            song_id,
                            then: PendingSeek {
                                position_ms: playback.position_ms,
                                timestamp_ms: playback.timestamp_ms,
                                extrapolate: playback.is_playing,
                            },
                        },
                    );
                },
                None => {},
            }
        }
        actions
    }

    /// The host told that somebody joined.
    pub fn handle_participant_joined(&mut self, participant: Participant) -> (actions: Vec<Action>)
        ensures
            final(self)@ == old(self)@.on_participant_joined(participant@).session,
            actions_view(actions@) == old(self)@.on_participant_joined(participant@).actions,
            final(self).clock == old(self).clock,
    {
        let mut actions = no_actions();
        match self.take_room() {
            Room::Active(mut room) => {
                let names_host = *participant.peer_id.as_str() == *room.host_peer_id.as_str();
                if participant.is_host == names_host {
                    room.add_participant(participant.clone());
                    emit(&mut actions, tell(Notification::ParticipantJoined(participant)));
                    emit(&mut actions, tell_room_changed(&room));
                }
                self.room = Room::Active(room);
            },
            other => {
                self.room = other;
            },
        }
        actions
    }

    /// The host told that somebody left.
    pub fn handle_participant_left(&mut self, peer_id: String) -> (actions: Vec<Action>)
        ensures
            final(self)@ == old(self)@.on_participant_left(peer_id@).session,
            actions_view(actions@) == old(self)@.on_participant_left(peer_id@).actions,
            final(self).clock == old(self).clock,
    {
        let mut actions = no_actions();
        match self.take_room() {
            Room::Active(mut room) => {
                let stays = *peer_id.as_str() == *room.host_peer_id.as_str() || *peer_id.as_str()
                    == *room.local_peer_id.as_str();
                if !stays {
                    room.remove_participant(peer_id.as_str());
                    emit(&mut actions, tell(Notification::ParticipantLeft(peer_id)));
                    emit(&mut actions, tell_room_changed(&room));
                }
                self.room = Room::Active(room);
            },
            other => {
                self.room = other;
            },
        }
        actions
    }

    /// The host handed the room over.
    pub fn handle_transfer_host(&mut self, new_host_peer_id: String) -> (actions: Vec<Action>)
        ensures
            final(self)@ == old(self)@.on_transfer_host(new_host_peer_id@).session,
            actions_view(actions@) == old(self)@.on_transfer_host(new_host_peer_id@).actions,
            final(self).clock == old(self).clock,
    {
        let mut actions = no_actions();
        match self.take_room() {
            Room::Active(mut room) => {
                room.transfer_host(new_host_peer_id.as_str());
                emit(&mut actions, tell_room_changed(&room));
                self.room = Room::Active(room);
            },
            other => {
                self.room = other;
            },
        }
        actions
    }

    /// The host started a track.
    pub fn handle_play(&mut self, track: TrackInfo, position_ms: u64) -> (actions: Vec<Action>)
        ensures
            final(self)@ == old(self)@.on_play(track@, position_ms).session,
            actions_view(actions@) == old(self)@.on_play(track@, position_ms).actions,
            final(self).clock == old(self).clock,
    {
        let mut actions = no_actions();
        if self.is_listener() {
            let seek_offset_ms = self.calibrator.offset_ms();
            emit(&mut actions, tell_player(PlayerCommand::PlayItem { song_id: track.song_id }));
            emit(&mut actions, Action::Wait { millis: PLAY_SETTLE_MS });
            emit(
                &mut actions,
                tell_player(
                    PlayerCommand::Seek {
                        position_ms: seek_position_ms(position_ms, seek_offset_ms),
                    },
                ),
            );
            emit(&mut actions, tell_player(PlayerCommand::Play));
            self.calibrator.mark_seek_performed();
        }
        actions
    }

    /// The host paused.
    pub fn handle_pause(&mut self, position_ms: u64) -> (actions: Vec<Action>)
        ensures
            final(self)@ == old(self)@.on_pause(position_ms).session,
            actions_view(actions@) == old(self)@.on_pause(position_ms).actions,
            final(self).clock == old(self).clock,
    {
        let mut actions = no_actions();
        if self.is_listener() {
            emit(&mut actions, tell_player(PlayerCommand::Pause));
            emit(&mut actions, tell_player(PlayerCommand::Seek { position_ms }));
        }
        actions
    }

    /// The host moved within the track.
    pub fn handle_seek(&mut self, position_ms: u64) -> (actions: Vec<Action>)
        ensures
            final(self)@ == old(self)@.on_seek(position_ms).session,
            actions_view(actions@) == old(self)@.on_seek(position_ms).actions,
            final(self).clock == old(self).clock,
    {
        let mut actions = no_actions();
        if self.is_listener() {
            let seek_offset_ms = self.calibrator.offset_ms();
            emit(
                &mut actions,
                tell_player(
                    PlayerCommand::Seek {
                        position_ms: seek_position_ms(position_ms, seek_offset_ms),
                    },
                ),
            );
            self.calibrator.mark_seek_performed();
        }
        actions
    }

    /// The host went on to another track.
    pub fn handle_track_change(&mut self, track: TrackInfo, position_ms: u64, timestamp_ms: u64) -> (actions:
        Vec<Action>)
        ensures
            final(self)@ == old(self)@.on_track_change(track@, position_ms, timestamp_ms).session,
            actions_view(actions@) == old(self)@.on_track_change(
                track@,
                position_ms,
                timestamp_ms,
            ).actions,
            final(self).clock == old(self).clock,
    {
        let mut actions = no_actions();
        match self.take_room() {
            Room::Active(mut room) => {
                if !room.is_host() {
                    emit(
                        &mut actions,
                        tell_player(PlayerCommand::PlayItem { song_id: track.song_id.clone() }),
                    );
                    emit(
                        &mut actions,
                        Action::AwaitTrack {
                            song_id: track.song_id.clone(),
                            then: PendingSeek { position_ms, timestamp_ms, extrapolate: true },
                        },
                    );
                }
                emit(
                    &mut actions,
                    tell(Notification::TrackChanged(Some(ShownTrack::from_track(&track)))),
                );
                room.update_track(Some(track));
                self.room = Room::Active(room);
            },
            other => {
                self.room = other;
            },
        }
        actions
    }

    /// The host told where it is.
    pub fn handle_heartbeat(&mut self, playback: PlaybackInfo) -> (actions: Vec<Action>)
        ensures
            final(self)@ == old(self)@.on_heartbeat(playback).session,
            actions_view(actions@) == old(self)@.on_heartbeat(playback).actions,
            final(self).clock == old(self).clock,
    {
        let mut actions = no_actions();
        if self.is_listener() {
            emit(
                &mut actions,
                Action::ObservePlayback {
                    heartbeat: playback,
                    latency_ms: self.latency.host_latency_ms(),
                    seek_offset_ms: self.calibrator.offset_ms(),
                },
            );
        }
        actions
    }

    /// A message from `from` came in at `wall_ms` on the wall clock and
    /// `now_ns` on the session's clock. What is not taken in is dropped:
    /// nothing changes and nothing follows.
    pub fn handle_sync_message(&mut self, from: String, message: SyncMessage, wall_ms: u64, now_ns: u64) -> (actions:
        Vec<Action>)
        ensures
            final(self)@ == old(self)@.on_sync_message(from@, message@, wall_ms, now_ns).session,
            actions_view(actions@) == old(self)@.on_sync_message(
                from@,
                message@,
                wall_ms,
                now_ns,
            ).actions,
            !old(self)@.authorized(from@, message@) ==> final(self)@ == old(self)@ && actions@.len()
                == 0,
            final(self).clock == old(self).clock,
    {
        if !self.is_authorized(from.as_str(), &message) {
            return no_actions();
        }
        match message {
            SyncMessage::RoomState {
                room_code,
                host_peer_id,
                participants,
                current_track,
                playback,
            } => self.handle_room_state(
                room_code,
                host_peer_id,
                participants,
                current_track,
                playback,
                now_ns,
            ),
            SyncMessage::JoinRequest { display_name } => self.handle_join_request(
                from,
                display_name,
            ),
            SyncMessage::JoinResponse { .. } => no_actions(),
            SyncMessage::ParticipantJoined(participant) => self.handle_participant_joined(
                participant,
            ),
            SyncMessage::ParticipantLeft { peer_id } => self.handle_participant_left(peer_id),
            SyncMessage::TransferHost { new_host_peer_id } => self.handle_transfer_host(
                new_host_peer_id,
            ),
            SyncMessage::Play { track, position_ms, .. } => self.handle_play(track, position_ms),
            SyncMessage::Pause { position_ms, .. } => self.handle_pause(position_ms),
            SyncMessage::Seek { position_ms, .. } => self.handle_seek(position_ms),
            SyncMessage::TrackChange { track, position_ms, timestamp_ms } => {
                self.handle_track_change(track, position_ms, timestamp_ms)
            },
            SyncMessage::Ping { sent_at_ms } => {
                let mut actions = no_actions();
                emit(
                    &mut actions,
                    send(SyncMessage::Pong { ping_sent_at_ms: sent_at_ms, received_at_ms: wall_ms }),
                );
                actions
            },
            SyncMessage::Pong { ping_sent_at_ms, .. } => {
                self.latency.handle_pong_at(from.as_str(), ping_sent_at_ms, now_ns);
                no_actions()
            },
            SyncMessage::Heartbeat { playback, .. } => self.handle_heartbeat(playback),
        }
    }

    /// The network told something at `wall_ms` on the wall clock and
    /// `now_ns` on the session's clock.
    pub fn handle_network_event(&mut self, event: NetworkEvent, wall_ms: u64, now_ns: u64) -> (actions:
        Vec<Action>)
        ensures
            final(self)@ == old(self)@.on_network_event(event@, wall_ms, now_ns).session,
            actions_view(actions@) == old(self)@.on_network_event(event@, wall_ms, now_ns).actions,
            final(self).clock == old(self).clock,
    {
        match event {
            NetworkEvent::PeerSubscribed { peer_id } => self.handle_peer_subscribed(peer_id),
            NetworkEvent::PeerUnsubscribed { peer_id } => self.handle_peer_unsubscribed(peer_id),
            NetworkEvent::Message { from, message } => self.handle_sync_message(
                from,
                message,
                wall_ms,
                now_ns,
            ),
            NetworkEvent::Error(message) => {
                let mut actions = no_actions();
                emit(&mut actions, tell(Notification::Error(message)));
                actions
            },
            _ => no_actions(),
        }
    }

    /// The player has loaded the track for which a seek was pending, or
    /// the wait for it is over, at `wall_ms`.
    pub fn track_loaded(&mut self, pending: PendingSeek, wall_ms: u64) -> (actions: Vec<Action>)
        ensures
            final(self)@ == old(self)@.on_track_loaded(pending, wall_ms).session,
            actions_view(actions@) == old(self)@.on_track_loaded(pending, wall_ms).actions,
            final(self).clock == old(self).clock,
    {
        let mut actions = no_actions();
        let seek_offset_ms = self.calibrator.offset_ms();
        emit(
            &mut actions,
            tell_player(
                PlayerCommand::Seek {
                    position_ms: pending_seek_position_ms(&pending, wall_ms, seek_offset_ms),
                },
            ),
        );
        self.calibrator.mark_seek_performed();
        actions
    }

    /// The player said at `wall_ms` that it stands at `position_ms`, asked
    /// on behalf of `heartbeat` with the latency and the seek offset of
    /// that moment.
    pub fn heartbeat_observed(
        &mut self,
        heartbeat: PlaybackInfo,
        latency_ms: u64,
        seek_offset_ms: u64,
        position_ms: u64,
        wall_ms: u64,
    ) -> (actions: Vec<Action>)
        ensures
            final(self)@ == old(self)@.on_heartbeat_observed(
                heartbeat,
                latency_ms,
                seek_offset_ms,
                position_ms,
                wall_ms,
            ).session,
            actions_view(actions@) == old(self)@.on_heartbeat_observed(
                heartbeat,
                latency_ms,
                seek_offset_ms,
                position_ms,
                wall_ms,
            ).actions,
            final(self).clock == old(self).clock,
    {
        let mut actions = no_actions();
        let expected = expected_position_ms(&heartbeat, wall_ms, latency_ms);
        let drift = drift_ms(position_ms, expected);
        let pending = self.calibrator.is_awaiting_measurement();
        let next_sample = if pending {
            self.calibrator.preview_calibration(drift)
        } else {
            None
        };
        let history = copy_samples(self.calibrator.sample_history());
        emit(
            &mut actions,
            tell(
                Notification::SyncStatus(
                    SyncStatus {
                        drift_ms: drift,
                        latency_ms,
                        elapsed_ms: elapsed_ms(heartbeat.timestamp_ms, wall_ms),
                        seek_offset_ms,
                        calibration_pending: pending,
                        next_calibration_sample: next_sample,
                        sample_history: history,
                    },
                ),
            ),
        );
        self.calibrator.measure_if_pending(drift);
        if drift_needs_resync(drift) {
            emit(
                &mut actions,
                tell_player(
                    PlayerCommand::Seek { position_ms: seek_position_ms(expected, seek_offset_ms) },
                ),
            );
            self.calibrator.mark_seek_performed();
        }
        actions
    }

    /// The player said whether it plays (`None`: it did not answer), after
    /// `heartbeat` was observed; it is `now_ns` on the session's clock.
    pub fn heartbeat_finished(&mut self, heartbeat: PlaybackInfo, local_playing: Option<bool>, now_ns: u64) -> (actions:
        Vec<Action>)
        ensures
            final(self)@ == old(self)@.on_heartbeat_finished(
                heartbeat,
                local_playing,
                now_ns,
            ).session,
            actions_view(actions@) == old(self)@.on_heartbeat_finished(
                heartbeat,
                local_playing,
                now_ns,
            ).actions,
            final(self).clock == old(self).clock,
    {
        let mut actions = no_actions();
        match self.take_room() {
            Room::Active(mut room) => {
                if !room.is_host() {
                    match local_playing {
                        Some(playing) => {
                            if heartbeat.is_playing && !playing {
                                emit(&mut actions, tell_player(PlayerCommand::Play));
                            } else if !heartbeat.is_playing && playing {
                                emit(&mut actions, tell_player(PlayerCommand::Pause));
                            }
                        },
                        None => {},
                    }
                    room.update_playback_at(heartbeat, now_ns);
                    emit(&mut actions, tell(Notification::PlaybackChanged(heartbeat)));
                }
                self.room = Room::Active(room);
            },
            other => {
                self.room = other;
            },
        }
        actions
    }
}

/// The samples, copied.
pub fn copy_samples(samples: &[CalibrationSample]) -> (copy: Vec<CalibrationSample>)
    ensures
        copy@ == samples@,
{
    let mut copy = Vec::new();
    let mut i: usize = 0;
    while i < samples.len()
        invariant
            i <= samples@.len(),
            copy@ == samples@.take(i as int),
        decreases samples@.len() - i,
    {
        copy.push(samples[i]);
        proof {
            assert(samples@.take(i + 1) == samples@.take(i as int).push(samples@[i as int]));
        }
        i = i + 1;
    }
    proof {
        assert(samples@.take(samples@.len() as int) == samples@);
    }
    copy
}

} // verus!
