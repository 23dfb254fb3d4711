//! What a session holds, and how it shows its room.

use crate::clock::MonotonicClock;
use crate::latency::{LatencyTracker, TrackerState};
use crate::seek_calibrator::{CalibratorState, SeekCalibrator};
use crate::session::types::{
    option_shown_view, shown_option, Action, ActionView, Notification, NotificationView, RoomState as ShownRoom,
    ShownRoomView, TrackInfo as ShownTrack,
};
use crate::network::events::{NetworkCommand, NetworkCommandView};
use crate::sync::protocol::{
    option_string_view, option_track_view, participants_view, Participant, SyncMessage, SyncMessageView, TrackInfo,
};
use crate::sync::state::{list_view, Room, RoomState, RoomStateView, RoomView};
use vstd::prelude::*;

verus! {

/// What a session holds, as mathematics.
pub struct SessionView {
    pub local_peer_id: Seq<char>,
    pub room: RoomView,
    pub latency: TrackerState,
    pub calibrator: CalibratorState,
    /// The song of which the host told the room last.
    pub last_broadcast_track_id: Option<Seq<char>>,
}

/// What follows from something that happened: the session afterwards and
/// the actions to carry out.
pub struct Step {
    pub session: SessionView,
    pub actions: Seq<ActionView>,
}

/// The room as it is shown to the user.
pub open spec fn shown_room(room: RoomStateView) -> ShownRoomView {
    ShownRoomView {
        room_code: room.room_code,
        local_peer_id: room.local_peer_id,
        host_peer_id: room.host_peer_id,
        participants: room.listing(),
        current_track: shown_option(room.current_track),
        playback: room.playback,
    }
}

/// The message by which the host tells the whole room.
pub open spec fn room_state_message(room: RoomStateView) -> SyncMessageView {
    SyncMessageView::RoomState {
        room_code: room.room_code,
        host_peer_id: room.host_peer_id,
        participants: room.listing(),
        current_track: room.current_track,
        playback: room.playback,
    }
}

/// The action of sending `message` to the room.
pub open spec fn broadcast(message: SyncMessageView) -> ActionView {
    ActionView::Network(NetworkCommandView::Broadcast { message })
}

/// The action of telling the user that the room has changed.
pub open spec fn room_changed(room: RoomStateView) -> ActionView {
    ActionView::Notify(NotificationView::RoomStateChanged(shown_room(room)))
}

impl SessionView {
    /// The session in another room state.
    pub open spec fn with_room(self, room: RoomView) -> SessionView {
        SessionView { room, ..self }
    }

    /// Nothing happens.
    pub open spec fn unchanged(self) -> Step {
        Step { session: self, actions: Seq::empty() }
    }

    /// Whether this peer is in a room of which it is not the host.
    pub open spec fn is_listener(self) -> bool {
        self.room matches RoomView::Active(room) && !room.is_host()
    }

    /// Whether this peer is the host of the room it is in.
    pub open spec fn is_host(self) -> bool {
        self.room matches RoomView::Active(room) && room.is_host()
    }

    /// Whether `from` is the host of the room that this peer is in.
    pub open spec fn from_host(self, from: Seq<char>) -> bool {
        self.room matches RoomView::Active(room) && room.host_peer_id == from
    }
}

/// A session: the room, the latency to its host, the seek offset, and what
/// the host told last.
pub struct Session {
    pub local_peer_id: String,
    pub room: Room,
    pub latency: LatencyTracker,
    pub calibrator: SeekCalibrator,
    pub last_broadcast_track_id: Option<String>,
    /// The clock by which round trips and silences are measured.
    pub clock: MonotonicClock,
}

impl View for Session {
    type V = SessionView;

    open spec fn view(&self) -> SessionView {
        SessionView {
            local_peer_id: self.local_peer_id@,
            room: self.room@,
            latency: self.latency@,
            calibrator: self.calibrator@,
            last_broadcast_track_id: option_string_view(self.last_broadcast_track_id),
        }
    }
}

/// An optional track, copied.
pub fn clone_track(track: &Option<TrackInfo>) -> (copy: Option<TrackInfo>)
    ensures
        option_track_view(copy) == option_track_view(
            *track,
        ),
{
    match track {
        Some(track) => Some(track.clone()),
        None => None,
    }
}

/// An optional track as it is shown.
pub fn show_track(track: &Option<TrackInfo>) -> (shown: Option<ShownTrack>)
    ensures
        option_shown_view(shown) == shown_option(
            option_track_view(*track),
        ),
{
    match track {
        Some(track) => Some(ShownTrack::from_track(track)),
        None => None,
    }
}

/// Everybody in the room, in the order of the list.
pub fn listed_participants(room: &RoomState) -> (participants: Vec<Participant>)
    ensures
        participants_view(participants@) == room@.listing(),
{
    let list = room.participant_list();
    let mut participants: Vec<Participant> = Vec::new();
    let mut i: usize = 0;
    while i < list.len()
        invariant
            i <= list@.len(),
            participants@.len() == i,
            forall|k: int| 0 <= k < i ==> (#[trigger] participants@[k])@ == list@[k]@,
        decreases list@.len() - i,
    {
        participants.push(list[i].clone());
        i = i + 1;
    }
    assert(participants_view(participants@) =~= list_view(list@));
    participants
}

/// The room as it is shown to the user.
pub fn show_room(room: &RoomState) -> (shown: ShownRoom)
    ensures
        shown@ == shown_room(room@),
{
    ShownRoom {
        room_code: room.room_code.clone(),
        local_peer_id: room.local_peer_id.clone(),
        host_peer_id: room.host_peer_id.clone(),
        participants: listed_participants(room),
        current_track: show_track(&room.current_track),
        playback: room.playback,
    }
}

/// The message by which the host tells the whole room.
pub fn room_state_of(room: &RoomState) -> (message: SyncMessage)
    ensures
        message@ == room_state_message(room@),
{
    SyncMessage::RoomState {
        room_code: room.room_code.clone(),
        host_peer_id: room.host_peer_id.clone(),
        participants: listed_participants(room),
        current_track: clone_track(&room.current_track),
        playback: room.playback,
    }
}

/// The action of sending `message` to the room.
pub fn send(message: SyncMessage) -> (action: Action)
    ensures
        action@ == broadcast(message@),
{
    Action::Network(NetworkCommand::Broadcast { message })
}

/// The action of telling the user that the room has changed.
pub fn tell_room_changed(room: &RoomState) -> (action: Action)
    ensures
        action@ == room_changed(room@),
{
    Action::Notify(Notification::RoomStateChanged(show_room(room)))
}

impl Session {
    /// A session of the peer `local_peer_id` that is in no room.
    pub fn new(local_peer_id: String) -> (session: Self)
        ensures
            session@ == (SessionView {
                local_peer_id: local_peer_id@,
                room: RoomView::Idle,
                latency: TrackerState::empty(),
                calibrator: CalibratorState::initial(),
                last_broadcast_track_id: None,
            }),
    {
        let clock = MonotonicClock::start();
        Session {
            local_peer_id,
            room: Room::Idle,
            latency: LatencyTracker::with_clock(clock),
            calibrator: SeekCalibrator::new(),
            last_broadcast_track_id: None,
            clock,
        }
    }

    /// Whether this peer is the host of the room it is in.
    pub fn is_host(&self) -> (host: bool)
        ensures
            host == self@.is_host(),
    {
        match &self.room {
            Room::Active(room) => room.is_host(),
            _ => false,
        }
    }

    /// Whether this peer is in a room.
    pub fn is_in_room(&self) -> (active: bool)
        ensures
            active == (self@.room is Active),
    {
        self.room.is_active()
    }

    /// Whether this peer is in a room of which it is not the host.
    pub fn is_listener(&self) -> (listener: bool)
        ensures
            listener == self@.is_listener(),
    {
        match &self.room {
            Room::Active(room) => !room.is_host(),
            _ => false,
        }
    }

    /// The room as it is shown to the user, if this peer is in one.
    pub fn get_room_state(&self) -> (shown: Option<ShownRoom>)
        ensures
            shown is Some <==> self@.room is Active,
            shown matches Some(shown) ==> self@.room matches RoomView::Active(room) && shown@
                == shown_room(room),
    {
        match &self.room {
            Room::Active(room) => Some(show_room(room)),
            _ => None,
        }
    }

    /// Whether `from` is the host of the room that this peer is in.
    pub fn is_from_host(&self, from: &str) -> (from_host: bool)
        ensures
            from_host == self@.from_host(from@),
    {
        match &self.room {
            Room::Active(room) => *room.host_peer_id.as_str() == *from,
            _ => false,
        }
    }

    /// The present readings of the wall clock, in milliseconds, and of the
    /// session's monotonic clock, in nanoseconds.
    pub fn now(&self) -> (u64, u64) {
        (crate::clock::current_time_ms(), self.clock.now_ns())
    }
}

} // verus!
