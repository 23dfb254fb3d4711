//! The messages of a room.

use vstd::prelude::*;

verus! {

/// A track, as far as peers need to know it.
#[derive(Debug, PartialEq, Eq)]
pub struct TrackInfo {
    /// The player's identifier of the song, by which it is asked to play it.
    pub song_id: String,
    pub name: String,
    pub artist: String,
    pub album: String,
    pub artwork_url: String,
    pub duration_ms: u64,
}

/// A [`TrackInfo`] as mathematics.
pub struct TrackInfoView {
    pub song_id: Seq<char>,
    pub name: Seq<char>,
    pub artist: Seq<char>,
    pub album: Seq<char>,
    pub artwork_url: Seq<char>,
    pub duration_ms: u64,
}

impl View for TrackInfo {
    type V = TrackInfoView;

    open spec fn view(&self) -> TrackInfoView {
        TrackInfoView {
            song_id: self.song_id@,
            name: self.name@,
            artist: self.artist@,
            album: self.album@,
            artwork_url: self.artwork_url@,
            duration_ms: self.duration_ms,
        }
    }
}

impl Clone for TrackInfo {
    fn clone(&self) -> (copy: Self)
        ensures
            copy@ == self@,
    {
        TrackInfo {
            song_id: self.song_id.clone(),
            name: self.name.clone(),
            artist: self.artist.clone(),
            album: self.album.clone(),
            artwork_url: self.artwork_url.clone(),
            duration_ms: self.duration_ms,
        }
    }
}

/// Somebody in a room.
#[derive(Debug, PartialEq, Eq)]
pub struct Participant {
    pub peer_id: String,
    /// The name that the participant chose.
    pub display_name: String,
    /// Whether this participant is the host. The room's `host_peer_id`
    /// decides; the flag travels with the participant.
    pub is_host: bool,
}

/// A [`Participant`] as mathematics.
pub struct ParticipantView {
    pub peer_id: Seq<char>,
    pub display_name: Seq<char>,
    pub is_host: bool,
}

impl View for Participant {
    type V = ParticipantView;

    open spec fn view(&self) -> ParticipantView {
        ParticipantView {
            peer_id: self.peer_id@,
            display_name: self.display_name@,
            is_host: self.is_host,
        }
    }
}

impl Clone for Participant {
    fn clone(&self) -> (copy: Self)
        ensures
            copy@ == self@,
    {
        Participant {
            peer_id: self.peer_id.clone(),
            display_name: self.display_name.clone(),
            is_host: self.is_host,
        }
    }
}

/// Where playback stands. The timestamp is the sender's wall clock when the
/// position was read; every extrapolation starts from it.
#[derive(Debug, Clone, Copy, PartialEq, Eq)]
pub struct PlaybackInfo {
    pub is_playing: bool,
    pub position_ms: u64,
    pub timestamp_ms: u64,
}

/// What peers of a room send each other.
#[derive(Debug, PartialEq, Eq)]
#[allow(inconsistent_fields)]
pub enum SyncMessage {
    /// The whole room, as the host knows it.
    RoomState {
        room_code: String,
        host_peer_id: String,
        participants: Vec<Participant>,
        current_track: Option<TrackInfo>,
        playback: PlaybackInfo,
    },
    /// A listener asks the host to be let in.
    JoinRequest { display_name: String },
    /// The answer to a join request. Reserved.
    JoinResponse { accepted: bool, room_code: Option<String>, reason: Option<String> },
    /// The host tells that somebody joined.
    ParticipantJoined(Participant),
    /// The host tells that somebody left.
    ParticipantLeft { peer_id: String },
    /// The host hands the room to another peer.
    TransferHost { new_host_peer_id: String },
    /// The host started or resumed playback.
    Play { track: TrackInfo, position_ms: u64, timestamp_ms: u64 },
    /// The host paused.
    Pause { position_ms: u64, timestamp_ms: u64 },
    /// The host moved within the track.
    Seek { position_ms: u64, timestamp_ms: u64 },
    /// The host went on to another track.
    TrackChange { track: TrackInfo, position_ms: u64, timestamp_ms: u64 },
    /// A latency probe.
    Ping { sent_at_ms: u64 },
    /// The answer to a latency probe.
    Pong { ping_sent_at_ms: u64, received_at_ms: u64 },
    /// The host's playback, sent every so often.
    Heartbeat { track_id: Option<String>, playback: PlaybackInfo },
}

/// The characters of an optional string.
pub open spec fn option_string_view(s: Option<String>) -> Option<Seq<char>> {
    match s {
        Some(s) => Some(s@),
        None => None,
    }
}

/// An optional track as mathematics.
pub open spec fn option_track_view(track: Option<TrackInfo>) -> Option<TrackInfoView> {
    match track {
        Some(track) => Some(track@),
        None => None,
    }
}

/// A list of participants as mathematics.
pub open spec fn participants_view(participants: Seq<Participant>) -> Seq<ParticipantView> {
    participants.map_values(|p: Participant| p@)
}

/// A [`SyncMessage`] as mathematics.
#[allow(inconsistent_fields)]
pub enum SyncMessageView {
    RoomState {
        room_code: Seq<char>,
        host_peer_id: Seq<char>,
        participants: Seq<ParticipantView>,
        current_track: Option<TrackInfoView>,
        playback: PlaybackInfo,
    },
    JoinRequest { display_name: Seq<char> },
    JoinResponse { accepted: bool, room_code: Option<Seq<char>>, reason: Option<Seq<char>> },
    ParticipantJoined(ParticipantView),
    ParticipantLeft { peer_id: Seq<char> },
    TransferHost { new_host_peer_id: Seq<char> },
    Play { track: TrackInfoView, position_ms: u64, timestamp_ms: u64 },
    Pause { position_ms: u64, timestamp_ms: u64 },
    Seek { position_ms: u64, timestamp_ms: u64 },
    TrackChange { track: TrackInfoView, position_ms: u64, timestamp_ms: u64 },
    Ping { sent_at_ms: u64 },
    Pong { ping_sent_at_ms: u64, received_at_ms: u64 },
    Heartbeat { track_id: Option<Seq<char>>, playback: PlaybackInfo },
}

impl View for SyncMessage {
    type V = SyncMessageView;

    open spec fn view(&self) -> SyncMessageView {
        match *self {
            SyncMessage::RoomState {
                room_code,
                host_peer_id,
                participants,
                current_track,
                playback,
            } => SyncMessageView::RoomState {
                room_code: room_code@,
                host_peer_id: host_peer_id@,
                participants: participants_view(participants@),
                current_track: option_track_view(current_track),
                playback,
            },
            SyncMessage::JoinRequest { display_name } => SyncMessageView::JoinRequest {
                display_name: display_name@,
            },
            SyncMessage::JoinResponse { accepted, room_code, reason } => {
                SyncMessageView::JoinResponse {
                    accepted,
                    room_code: option_string_view(room_code),
                    reason: option_string_view(reason),
                }
            },
            SyncMessage::ParticipantJoined(participant) => SyncMessageView::ParticipantJoined(
                participant@,
            ),
            SyncMessage::ParticipantLeft { peer_id } => SyncMessageView::ParticipantLeft {
                peer_id: peer_id@,
            },
            SyncMessage::TransferHost { new_host_peer_id } => SyncMessageView::TransferHost {
                new_host_peer_id: new_host_peer_id@,
            },
            SyncMessage::Play { track, position_ms, timestamp_ms } => SyncMessageView::Play {
                track: track@,
                position_ms,
                timestamp_ms,
            },
            SyncMessage::Pause { position_ms, timestamp_ms } => SyncMessageView::Pause {
                position_ms,
                timestamp_ms,
            },
            SyncMessage::Seek { position_ms, timestamp_ms } => SyncMessageView::Seek {
                position_ms,
                timestamp_ms,
            },
            SyncMessage::TrackChange { track, position_ms, timestamp_ms } => {
                SyncMessageView::TrackChange { track: track@, position_ms, timestamp_ms }
            },
            SyncMessage::Ping { sent_at_ms } => SyncMessageView::Ping { sent_at_ms },
            SyncMessage::Pong { ping_sent_at_ms, received_at_ms } => SyncMessageView::Pong {
                ping_sent_at_ms,
                received_at_ms,
            },
            SyncMessage::Heartbeat { track_id, playback } => SyncMessageView::Heartbeat {
                track_id: option_string_view(track_id),
                playback,
            },
        }
    }
}

impl SyncMessageView {
    /// Whether the message is a playback command or a hand-over of the
    /// room.
    pub open spec fn requires_host(self) -> bool {
        self is Play || self is Pause || self is Seek || self is TrackChange || self
            is TransferHost
    }

    /// Whether the message is taken from the host alone: the playback
    /// commands, the hand-over, the membership notices and the heartbeat.
    pub open spec fn host_only(self) -> bool {
        self.requires_host() || self is ParticipantJoined || self is ParticipantLeft || self
            is Heartbeat
    }
}

impl SyncMessage {
    /// Whether the message is a playback command or a hand-over of the
    /// room, which only the host may send.
    pub fn requires_host(&self) -> (needed: bool)
        ensures
            needed == self@.requires_host(),
    {
        match self {
            SyncMessage::Play { .. } => true,
            SyncMessage::Pause { .. } => true,
            SyncMessage::Seek { .. } => true,
            SyncMessage::TrackChange { .. } => true,
            SyncMessage::TransferHost { .. } => true,
            _ => false,
        }
    }

    /// Whether the message is taken from the host alone.
    pub fn is_host_only(&self) -> (host_only: bool)
        ensures
            host_only == self@.host_only(),
    {
        match self {
            SyncMessage::ParticipantJoined(_) => true,
            SyncMessage::ParticipantLeft { .. } => true,
            SyncMessage::Heartbeat { .. } => true,
            _ => self.requires_host(),
        }
    }
}

} // verus!
