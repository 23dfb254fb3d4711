//! What a session does when its user tells it something.
//!
//! A peer is in no room, on its way into one, or in one: making a room
//! leads from idle over creating to active, joining one from idle over
//! joining to active, and leaving back to idle. A peer that is busy neither
//! makes nor joins a room.

use crate::network::events::{NetworkCommand, NetworkCommandView};
use crate::network::room_code::{parse_spec, well_formed, RoomCode};
use crate::session::engine::{
    broadcast, room_changed, send, tell_room_changed, Session, SessionView, Step,
};
use crate::session::handlers::notify;
use crate::session::types::{
    actions_view, emit, no_actions, Action, ActionView, CoreError, CoreErrorView, Notification,
    NotificationView,
};
use crate::latency::TrackerState;
use crate::sync::protocol::{
    option_string_view, PlaybackInfo, SyncMessage, SyncMessageView, TrackInfo,
};
use crate::sync::state::{Room, RoomState, RoomStateView, RoomView};
use vstd::prelude::*;
use vstd::string::StringExecFns;

verus! {

impl SessionView {
    /// Why this peer may not act as host, if it may not: it is in no room,
    /// or it is not the host of its room.
    pub open spec fn host_refusal(self) -> Option<CoreErrorView> {
        match self.room {
            RoomView::Active(room) => if room.is_host() {
                None
            } else {
                Some(CoreErrorView::NotHost)
            },
            _ => Some(CoreErrorView::NotInRoom),
        }
    }

    /// The network has made the room with the code `room_code` at
    /// `now_ns`: a peer that was creating a room is its host now, tells the
    /// user, and starts to tell the room what it plays.
    pub open spec fn on_room_created(self, room_code: Seq<char>, now_ns: u64) -> Step {
        match self.room {
            RoomView::Creating { display_name } => {
                let room = RoomStateView::as_host(
                    room_code,
                    self.local_peer_id,
                    display_name,
                    now_ns,
                );
                Step {
                    session: self.with_room(RoomView::Active(room)),
                    actions: seq![room_changed(room), ActionView::StartHostLoop],
                }
            },
            _ => self.unchanged(),
        }
    }

    /// What follows when a peer sets out to join the room with the code
    /// `room_code`.
    pub open spec fn joining(self, room_code: Seq<char>, display_name: Seq<char>) -> Step {
        Step {
            session: self.with_room(RoomView::Joining { room_code, display_name }),
            actions: seq![
                ActionView::Network(NetworkCommandView::JoinRoom { room_code }),
                ActionView::ScheduleJoinRequests { room_code },
                ActionView::ScheduleJoinTimeout { room_code },
                ActionView::StartPingLoop,
            ],
        }
    }

    /// What follows when a peer leaves its room: both loops stop, the
    /// network is told, nothing is remembered of the room, and the user is
    /// told.
    pub open spec fn left(self) -> Step {
        Step {
            session: SessionView {
                room: RoomView::Idle,
                latency: TrackerState::empty(),
                last_broadcast_track_id: None,
                ..self
            },
            actions: seq![
                ActionView::StopHostLoop,
                ActionView::StopPingLoop,
                ActionView::Network(NetworkCommandView::LeaveRoom),
                notify(NotificationView::Disconnected),
            ],
        }
    }

    /// Whether a peer that set out to join the room with the code
    /// `room_code` still waits to be let in.
    pub open spec fn still_joining(self, room_code: Seq<char>) -> bool {
        self.room matches RoomView::Joining { room_code: ours, .. } && ours == room_code
    }
}

/// Why a peer that stands at `room` may not set out to join a room on the
/// input `typed`, if it may not: a peer that is in a room is in a room
/// already; input that is no room code is invalid; and a peer that is on
/// its way into a room does not set out again.
pub open spec fn join_refusal(room: RoomView, typed: Seq<char>) -> Option<CoreErrorView> {
    if room is Active {
        Some(CoreErrorView::AlreadyInRoom)
    } else if parse_spec(typed) is None {
        Some(CoreErrorView::NetworkError("Invalid room code"@))
    } else if !(room is Idle) {
        Some(CoreErrorView::AlreadyInRoom)
    } else {
        None
    }
}

/// Why a peer that stands at `room` may not set out to join a room on the
/// input `typed`, if it may not. This can be asked before there is a
/// session.
pub fn refuse_join(room: &Room, typed: &str) -> (refusal: Option<CoreError>)
    ensures
        refusal is Some <==> join_refusal(room@, typed@) is Some,
        refusal matches Some(error) ==> join_refusal(room@, typed@) == Some(error@),
{
    if room.is_active() {
        Some(CoreError::AlreadyInRoom)
    } else if RoomCode::parse(typed).is_none() {
        Some(CoreError::NetworkError(String::from_str("Invalid room code")))
    } else if room.is_busy() {
        Some(CoreError::AlreadyInRoom)
    } else {
        None
    }
}

/// What the user is told when nobody answered for the room `room_code`.
pub open spec fn room_not_found(room_code: Seq<char>) -> Seq<char> {
    "Room "@ + room_code + " not found"@
}

impl Session {
    /// Refuses a peer that may not act as host.
    pub fn require_host(&self) -> (allowed: Result<(), CoreError>)
        ensures
            allowed is Ok <==> self@.is_host(),
            allowed matches Err(error) ==> self@.host_refusal() == Some(error@),
    {
        match &self.room {
            Room::Active(room) => if room.is_host() {
                Ok(())
            } else {
                Err(CoreError::NotHost)
            },
            _ => Err(CoreError::NotInRoom),
        }
    }

    /// Sets out to make a room with a fresh code. Returns the code and the
    /// command for the network; `room_created` is to follow when the
    /// network has obeyed, `create_failed` when it has not. A peer that is
    /// busy is refused.
    pub fn create_room(&mut self, display_name: String) -> (made: Result<
        (RoomCode, NetworkCommand),
        CoreError,
    >)
        ensures
            made is Ok <==> old(self)@.room is Idle,
            made matches Err(error) ==> error@ == CoreErrorView::AlreadyInRoom && final(self)@
                == old(self)@,
            made matches Ok(pair) ==> final(self)@ == old(self)@.with_room(
                RoomView::Creating { display_name: display_name@ },
            ) && well_formed(pair.0@) && pair.1@ == (NetworkCommandView::CreateRoom {
                room_code: pair.0@,
            }),
            final(self).clock == old(self).clock,
    {
        self.create_room_with(display_name, RoomCode::random())
    }

    /// Sets out to make a room with the code `room_code`.
    pub fn create_room_with(&mut self, display_name: String, room_code: RoomCode) -> (made: Result<
        (RoomCode, NetworkCommand),
        CoreError,
    >)
        ensures
            made is Ok <==> old(self)@.room is Idle,
            made matches Err(error) ==> error@ == CoreErrorView::AlreadyInRoom && final(self)@
                == old(self)@,
            made matches Ok(pair) ==> final(self)@ == old(self)@.with_room(
                RoomView::Creating { display_name: display_name@ },
            ) && pair.0@ == room_code@ && well_formed(pair.0@) && pair.1@
                == (NetworkCommandView::CreateRoom { room_code: room_code@ }),
            final(self).clock == old(self).clock,
    {
        if self.room.is_busy() {
            return Err(CoreError::AlreadyInRoom);
        }
        self.room = Room::Creating { display_name };
        let command = NetworkCommand::CreateRoom {
            room_code: String::from_str(room_code.as_str()),
        };
        Ok((room_code, command))
    }

    /// The network could not make the room: a peer that was creating one
    /// is idle again.
    pub fn create_failed(&mut self)
        ensures
            final(self)@ == if old(self)@.room is Creating {
                old(self)@.with_room(RoomView::Idle)
            } else {
                old(self)@
            },
            final(self).clock == old(self).clock,
    {
        let creating = match &self.room {
            Room::Creating { .. } => true,
            _ => false,
        };
        if creating {
            self.room = Room::Idle;
        }
    }

    /// The network has made the room with the code `room_code` at
    /// `now_ns` on the session's clock.
    pub fn room_created(&mut self, room_code: &RoomCode, now_ns: u64) -> (actions: Vec<Action>)
        ensures
            final(self)@ == old(self)@.on_room_created(room_code@, now_ns).session,
            actions_view(actions@) == old(self)@.on_room_created(room_code@, now_ns).actions,
            final(self).clock == old(self).clock,
    {
        let mut actions = no_actions();
        let mut room = Room::Idle;
        core::mem::swap(&mut self.room, &mut room);
        match room {
            Room::Creating { display_name } => {
                let room = RoomState::new_as_host_at(
                    String::from_str(room_code.as_str()),
                    self.local_peer_id.clone(),
                    display_name,
                    self.clock,
                    now_ns,
                );
                emit(&mut actions, tell_room_changed(&room));
                emit(&mut actions, Action::StartHostLoop);
                self.room = Room::Active(room);
            },
            other => {
                self.room = other;
            },
        }
        actions
    }

    /// Sets out to join the room whose code the user typed. A peer that is
    /// in a room is refused; then input that is no room code; then a peer
    /// that is on its way into a room.
    pub fn join_room(&mut self, room_code: &str, display_name: String) -> (joined: Result<
        Vec<Action>,
        CoreError,
    >)
        ensures
            joined is Ok <==> old(self)@.room is Idle && parse_spec(room_code@) is Some,
            joined matches Err(error) ==> final(self)@ == old(self)@ && join_refusal(
                old(self)@.room,
                room_code@,
            ) == Some(error@),
            joined matches Ok(actions) ==> final(self)@ == old(self)@.joining(
                parse_spec(room_code@)->0,
                display_name@,
            ).session && actions_view(actions@) == old(self)@.joining(
                parse_spec(room_code@)->0,
                display_name@,
            ).actions,
            final(self).clock == old(self).clock,
    {
        if self.room.is_active() {
            return Err(CoreError::AlreadyInRoom);
        }
        let code = match RoomCode::parse(room_code) {
            Some(code) => code,
            None => {
                return Err(CoreError::NetworkError(String::from_str("Invalid room code")));
            },
        };
        if self.room.is_busy() {
            return Err(CoreError::AlreadyInRoom);
        }
        let mut actions = no_actions();
        self.room = Room::Joining { room_code: String::from_str(code.as_str()), display_name };
        emit(
            &mut actions,
            Action::Network(NetworkCommand::JoinRoom { room_code: String::from_str(code.as_str()) }),
        );
        emit(
            &mut actions,
            Action::ScheduleJoinRequests { room_code: String::from_str(code.as_str()) },
        );
        emit(
            &mut actions,
            Action::ScheduleJoinTimeout { room_code: String::from_str(code.as_str()) },
        );
        emit(&mut actions, Action::StartPingLoop);
        Ok(actions)
    }

    /// The request to be let into the room with the code `room_code`, as
    /// long as this peer still waits to be let in there.
    pub fn join_request_due(&self, room_code: &str) -> (request: Option<SyncMessage>)
        ensures
            request is Some <==> self@.still_joining(room_code@),
            request matches Some(message) ==> self@.room matches RoomView::Joining {
                display_name,
                ..
            } && message@ == (SyncMessageView::JoinRequest { display_name }),
    {
        match &self.room {
            Room::Joining { room_code: ours, display_name } => {
                if *ours.as_str() == *room_code {
                    Some(SyncMessage::JoinRequest { display_name: display_name.clone() })
                } else {
                    None
                }
            },
            _ => None,
        }
    }

    /// What the user is told when `JOIN_TIMEOUT_MS` have passed since this
    /// peer set out to join the room with the code `room_code`: that the
    /// room was not found, if the peer still waits to be let in there.
    pub fn join_timed_out(&self, room_code: &str) -> (told: Option<Notification>)
        ensures
            told is Some <==> self@.still_joining(room_code@),
            told matches Some(notification) ==> notification@ == NotificationView::Error(
                room_not_found(room_code@),
            ),
    {
        let waiting = match &self.room {
            Room::Joining { room_code: ours, .. } => *ours.as_str() == *room_code,
            _ => false,
        };
        if waiting {
            Some(
                Notification::Error(
                    String::from_str("Room ").concat(room_code).concat(" not found"),
                ),
            )
        } else {
            None
        }
    }

    /// Leaves the room that this peer is in or is joining. A peer that is
    /// neither is refused.
    pub fn leave_room(&mut self) -> (left: Result<Vec<Action>, CoreError>)
        ensures
            left is Ok <==> old(self)@.room is Active || old(self)@.room is Joining,
            left matches Err(error) ==> error@ == CoreErrorView::NotInRoom && final(self)@ == old(
                self,
            )@,
            left matches Ok(actions) ==> final(self)@ == old(self)@.left().session && actions_view(
                actions@,
            ) == old(self)@.left().actions,
            final(self).clock == old(self).clock,
    {
        let in_room = match &self.room {
            Room::Active(_) => true,
            Room::Joining { .. } => true,
            _ => false,
        };
        if !in_room {
            return Err(CoreError::NotInRoom);
        }
        let mut actions = no_actions();
        emit(&mut actions, Action::StopHostLoop);
        emit(&mut actions, Action::StopPingLoop);
        emit(&mut actions, Action::Network(NetworkCommand::LeaveRoom));
        emit(&mut actions, Action::Notify(Notification::Disconnected));
        self.room = Room::Idle;
        self.last_broadcast_track_id = None;
        self.latency.clear();
        Ok(actions)
    }

    /// Hands the room to `peer_id`. Only the host may, and only to a
    /// participant.
    pub fn transfer_host(&mut self, peer_id: String) -> (done: Result<Vec<Action>, CoreError>)
        ensures
            done is Ok <==> old(self)@.is_host() && old(self)@.room->Active_0.participants.contains_key(
                peer_id@,
            ),
            done matches Err(error) ==> final(self)@ == old(self)@ && error@ == match old(
                self,
            )@.host_refusal() {
                Some(refusal) => refusal,
                None => CoreErrorView::NetworkError("Peer not found"@),
            },
            done matches Ok(actions) ==> final(self)@ == old(self)@.with_room(
                RoomView::Active(old(self)@.room->Active_0.host_transferred(peer_id@)),
            ) && actions_view(actions@) == seq![
                broadcast(SyncMessageView::TransferHost { new_host_peer_id: peer_id@ }),
                room_changed(old(self)@.room->Active_0.host_transferred(peer_id@)),
            ],
            final(self).clock == old(self).clock,
    {
        match self.require_host() {
            Err(error) => {
                return Err(error);
            },
            Ok(()) => {},
        }
        let mut actions = no_actions();
        let mut room = Room::Idle;
        core::mem::swap(&mut self.room, &mut room);
        match room {
            Room::Active(mut room) => {
                let done = room.transfer_host(peer_id.as_str());
                if done {
                    emit(
                        &mut actions,
                        send(SyncMessage::TransferHost { new_host_peer_id: peer_id }),
                    );
                    emit(&mut actions, tell_room_changed(&room));
                }
                self.room = Room::Active(room);
                if done {
                    Ok(actions)
                } else {
                    Err(CoreError::NetworkError(String::from_str("Peer not found")))
                }
            },
            other => {
                self.room = other;
                Err(CoreError::NotInRoom)
            },
        }
    }

    /// What the host tells the room once its player has resumed at the
    /// user's wish: to play the track of the room, if there is one.
    pub fn sync_play(&self, wall_ms: u64) -> (told: Result<Vec<Action>, CoreError>)
        ensures
            told is Ok <==> self@.is_host(),
            told matches Err(error) ==> self@.host_refusal() == Some(error@),
            told matches Ok(actions) ==> actions_view(actions@) == match self@.room->Active_0.current_track {
                Some(track) => seq![
                    broadcast(
                        SyncMessageView::Play {
                            track,
                            position_ms: self@.room->Active_0.playback.position_ms,
                            timestamp_ms: wall_ms,
                        },
                    ),
                ],
                None => Seq::empty(),
            },
    {
        let mut actions = no_actions();
        match &self.room {
            Room::Active(room) => {
                if !room.is_host() {
                    return Err(CoreError::NotHost);
                }
                match &room.current_track {
                    Some(track) => {
                        emit(
                            &mut actions,
                            send(
                                SyncMessage::Play {
                                    track: track.clone(),
                                    position_ms: room.playback.position_ms,
                                    timestamp_ms: wall_ms,
                                },
                            ),
                        );
                    },
                    None => {},
                }
                Ok(actions)
            },
            _ => Err(CoreError::NotInRoom),
        }
    }

    /// What the host tells the room once its player has paused at the
    /// user's wish.
    pub fn sync_pause(&self, wall_ms: u64) -> (told: Result<Vec<Action>, CoreError>)
        ensures
            told is Ok <==> self@.is_host(),
            told matches Err(error) ==> self@.host_refusal() == Some(error@),
            told matches Ok(actions) ==> actions_view(actions@) == seq![
                broadcast(
                    SyncMessageView::Pause {
                        position_ms: self@.room->Active_0.playback.position_ms,
                        timestamp_ms: wall_ms,
                    },
                ),
            ],
    {
        let mut actions = no_actions();
        match &self.room {
            Room::Active(room) => {
                if !room.is_host() {
                    return Err(CoreError::NotHost);
                }
                emit(
                    &mut actions,
                    send(
                        SyncMessage::Pause {
                            position_ms: room.playback.position_ms,
                            timestamp_ms: wall_ms,
                        },
                    ),
                );
                Ok(actions)
            },
            _ => Err(CoreError::NotInRoom),
        }
    }

    /// What the host tells the room once its player has moved to
    /// `position_ms` at the user's wish.
    pub fn sync_seek(&self, position_ms: u64, wall_ms: u64) -> (told: Result<Vec<Action>, CoreError>)
        ensures
            told is Ok <==> self@.is_host(),
            told matches Err(error) ==> self@.host_refusal() == Some(error@),
            told matches Ok(actions) ==> actions_view(actions@) == seq![
                broadcast(SyncMessageView::Seek { position_ms, timestamp_ms: wall_ms }),
            ],
    {
        let mut actions = no_actions();
        match self.require_host() {
            Err(error) => Err(error),
            Ok(()) => {
                emit(
                    &mut actions,
                    send(SyncMessage::Seek { position_ms, timestamp_ms: wall_ms }),
                );
                Ok(actions)
            },
        }
    }

    /// The heartbeat by which the host tells the room where its player
    /// stands.
    pub fn broadcast_playback(
        &self,
        track_id: Option<String>,
        is_playing: bool,
        position_ms: u64,
        wall_ms: u64,
    ) -> (told: Result<Vec<Action>, CoreError>)
        ensures
            told is Ok <==> self@.is_host(),
            told matches Err(error) ==> self@.host_refusal() == Some(error@),
            told matches Ok(actions) ==> actions_view(actions@) == seq![
                broadcast(
                    SyncMessageView::Heartbeat {
                        track_id: option_string_view(track_id),
                        playback: PlaybackInfo { is_playing, position_ms, timestamp_ms: wall_ms },
                    },
                ),
            ],
    {
        let mut actions = no_actions();
        match self.require_host() {
            Err(error) => Err(error),
            Ok(()) => {
                emit(
                    &mut actions,
                    send(
                        SyncMessage::Heartbeat {
                            track_id,
                            playback: PlaybackInfo {
                                is_playing,
                                position_ms,
                                timestamp_ms: wall_ms,
                            },
                        },
                    ),
                );
                Ok(actions)
            },
        }
    }

    /// The host notes that its player went on to `track` and tells the
    /// room.
    pub fn broadcast_track_change(&mut self, track: TrackInfo, position_ms: u64, wall_ms: u64) -> (told:
        Result<Vec<Action>, CoreError>)
        ensures
            told is Ok <==> old(self)@.is_host(),
            told matches Err(error) ==> final(self)@ == old(self)@ && old(self)@.host_refusal()
                == Some(error@),
            told matches Ok(actions) ==> final(self)@ == old(self)@.with_room(
                RoomView::Active(
                    RoomStateView { current_track: Some(track@), ..old(self)@.room->Active_0 },
                ),
            ) && actions_view(actions@) == seq![
                broadcast(
                    SyncMessageView::TrackChange { track: track@, position_ms, timestamp_ms: wall_ms },
                ),
            ],
            final(self).clock == old(self).clock,
    {
        match self.require_host() {
            Err(error) => {
                return Err(error);
            },
            Ok(()) => {},
        }
        let mut actions = no_actions();
        let mut room = Room::Idle;
        core::mem::swap(&mut self.room, &mut room);
        match room {
            Room::Active(mut room) => {
                emit(
                    &mut actions,
                    send(
                        SyncMessage::TrackChange {
                            track: track.clone(),
                            position_ms,
                            timestamp_ms: wall_ms,
                        },
                    ),
                );
                room.update_track(Some(track));
                self.room = Room::Active(room);
                Ok(actions)
            },
            other => {
                self.room = other;
                Err(CoreError::NotInRoom)
            },
        }
    }
}

} // verus!
