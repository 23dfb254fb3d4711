//! What the session hands out.

use crate::cider::types::{NowPlaying, NowPlayingView, ARTWORK_SIZE};
use crate::network::events::{NetworkCommand, NetworkCommandView};
use crate::seek_calibrator::CalibrationSample;
use crate::sync::protocol::{
    participants_view, Participant, ParticipantView, PlaybackInfo, TrackInfo as SyncTrack,
    TrackInfoView,
};
use vstd::prelude::*;
use vstd::string::StringExecFns;

verus! {

/// What can go wrong for the user of a session.
#[derive(Debug, PartialEq, Eq)]
pub enum CoreError {
    /// The player does not answer.
    CiderNotReachable,
    /// The player answered with an error.
    CiderApiError(String),
    /// The network failed.
    NetworkError(String),
    NotInRoom,
    AlreadyInRoom,
    NotHost,
    /// No host answered in time.
    JoinTimeout,
}

/// A [`CoreError`] as mathematics.
pub enum CoreErrorView {
    CiderNotReachable,
    CiderApiError(Seq<char>),
    NetworkError(Seq<char>),
    NotInRoom,
    AlreadyInRoom,
    NotHost,
    JoinTimeout,
}

impl View for CoreError {
    type V = CoreErrorView;

    open spec fn view(&self) -> CoreErrorView {
        match *self {
            CoreError::CiderNotReachable => CoreErrorView::CiderNotReachable,
            CoreError::CiderApiError(reason) => CoreErrorView::CiderApiError(reason@),
            CoreError::NetworkError(reason) => CoreErrorView::NetworkError(reason@),
            CoreError::NotInRoom => CoreErrorView::NotInRoom,
            CoreError::AlreadyInRoom => CoreErrorView::AlreadyInRoom,
            CoreError::NotHost => CoreErrorView::NotHost,
            CoreError::JoinTimeout => CoreErrorView::JoinTimeout,
        }
    }
}

impl CoreErrorView {
    /// The error in words.
    pub open spec fn message(self) -> Seq<char> {
        match self {
            CoreErrorView::CiderNotReachable => "Cider is not reachable"@,
            CoreErrorView::CiderApiError(reason) => "Cider API error: "@ + reason,
            CoreErrorView::NetworkError(reason) => "Network error: "@ + reason,
            CoreErrorView::NotInRoom => "Not in a room"@,
            CoreErrorView::AlreadyInRoom => "Already in a room"@,
            CoreErrorView::NotHost => "Not the host"@,
            CoreErrorView::JoinTimeout => "Join timeout - room not found or host not reachable"@,
        }
    }
}

impl CoreError {
    /// The error in words.
    pub fn message(&self) -> (message: String)
        ensures
            message@ == self@.message(),
    {
        match self {
            CoreError::CiderNotReachable => String::from_str("Cider is not reachable"),
            CoreError::CiderApiError(reason) => String::from_str("Cider API error: ").concat(
                reason.as_str(),
            ),
            CoreError::NetworkError(reason) => String::from_str("Network error: ").concat(
                reason.as_str(),
            ),
            CoreError::NotInRoom => String::from_str("Not in a room"),
            CoreError::AlreadyInRoom => String::from_str("Already in a room"),
            CoreError::NotHost => String::from_str("Not the host"),
            CoreError::JoinTimeout => String::from_str(
                "Join timeout - room not found or host not reachable",
            ),
        }
    }
}

/// A track as the user is shown it: what peers know of it, and where
/// playback stands in it.
#[derive(Debug, PartialEq, Eq)]
pub struct TrackInfo {
    pub song_id: String,
    pub name: String,
    pub artist: String,
    pub album: String,
    pub artwork_url: String,
    pub duration_ms: u64,
    pub position_ms: u64,
}

/// A [`TrackInfo`] as mathematics.
pub struct ShownTrackView {
    pub track: TrackInfoView,
    pub position_ms: u64,
}

impl View for TrackInfo {
    type V = ShownTrackView;

    open spec fn view(&self) -> ShownTrackView {
        ShownTrackView {
            track: TrackInfoView {
                song_id: self.song_id@,
                name: self.name@,
                artist: self.artist@,
                album: self.album@,
                artwork_url: self.artwork_url@,
                duration_ms: self.duration_ms,
            },
            position_ms: self.position_ms,
        }
    }
}

/// An optional shown track as mathematics.
pub open spec fn option_shown_view(track: Option<TrackInfo>) -> Option<ShownTrackView> {
    match track {
        Some(track) => Some(track@),
        None => None,
    }
}

/// What a track known to peers is shown as: at its start.
pub open spec fn shown_track(track: TrackInfoView) -> ShownTrackView {
    ShownTrackView { track, position_ms: 0 }
}

/// What an optional track known to peers is shown as.
pub open spec fn shown_option(track: Option<TrackInfoView>) -> Option<ShownTrackView> {
    match track {
        Some(track) => Some(shown_track(track)),
        None => None,
    }
}

/// What the track that the player plays is shown as: at the position that
/// the player reports.
pub open spec fn shown_playing(playing: NowPlayingView) -> ShownTrackView {
    ShownTrackView { track: playing.track(), position_ms: playing.position_ms }
}

impl TrackInfo {
    /// A track known to peers, shown at its start.
    pub fn from_track(track: &SyncTrack) -> (shown: TrackInfo)
        ensures
            shown@ == shown_track(track@),
    {
        TrackInfo {
            song_id: track.song_id.clone(),
            name: track.name.clone(),
            artist: track.artist.clone(),
            album: track.album.clone(),
            artwork_url: track.artwork_url.clone(),
            duration_ms: track.duration_ms,
            position_ms: 0,
        }
    }

    /// The track as peers are told of it: without the position.
    pub fn to_track(&self) -> (track: SyncTrack)
        ensures
            track@ == self@.track,
    {
        SyncTrack {
            song_id: self.song_id.clone(),
            name: self.name.clone(),
            artist: self.artist.clone(),
            album: self.album.clone(),
            artwork_url: self.artwork_url.clone(),
            duration_ms: self.duration_ms,
        }
    }

    /// The track that the player plays, shown where the player is.
    pub fn from_now_playing(playing: &NowPlaying) -> (shown: TrackInfo)
        ensures
            shown@ == shown_playing(playing@),
    {
        TrackInfo {
            song_id: match &playing.play_params {
                Some(params) => params.id.clone(),
                None => String::new(),
            },
            name: playing.name.clone(),
            artist: playing.artist_name.clone(),
            album: playing.album_name.clone(),
            artwork_url: playing.artwork_url(ARTWORK_SIZE),
            duration_ms: playing.duration_in_millis,
            position_ms: playing.position_ms,
        }
    }
}

/// What the player is doing.
#[derive(Debug, PartialEq, Eq)]
pub struct CurrentPlayback {
    pub track: Option<TrackInfo>,
    pub is_playing: bool,
}

/// The room as the user is shown it.
#[derive(Debug, PartialEq, Eq)]
pub struct RoomState {
    pub room_code: String,
    pub local_peer_id: String,
    pub host_peer_id: String,
    /// The host first, the others by name.
    pub participants: Vec<Participant>,
    pub current_track: Option<TrackInfo>,
    pub playback: PlaybackInfo,
}

/// A shown [`RoomState`] as mathematics.
pub struct ShownRoomView {
    pub room_code: Seq<char>,
    pub local_peer_id: Seq<char>,
    pub host_peer_id: Seq<char>,
    pub participants: Seq<ParticipantView>,
    pub current_track: Option<ShownTrackView>,
    pub playback: PlaybackInfo,
}

impl View for RoomState {
    type V = ShownRoomView;

    open spec fn view(&self) -> ShownRoomView {
        ShownRoomView {
            room_code: self.room_code@,
            local_peer_id: self.local_peer_id@,
            host_peer_id: self.host_peer_id@,
            participants: participants_view(self.participants@),
            current_track: option_shown_view(self.current_track),
            playback: self.playback,
        }
    }
}

/// How well a listener follows the host, as of one heartbeat.
#[derive(Debug, PartialEq, Eq)]
pub struct SyncStatus {
    /// Positive ahead of the host, negative behind it.
    pub drift_ms: i64,
    /// The estimated one-way latency to the host.
    pub latency_ms: u64,
    /// The time since the host read its position.
    pub elapsed_ms: u64,
    pub seek_offset_ms: u64,
    /// Whether a seek awaits its measurement.
    pub calibration_pending: bool,
    /// The ideal offset that this heartbeat suggests, where it is going to
    /// be measured and is no outlier.
    pub next_calibration_sample: Option<i64>,
    /// The latest samples, newest last.
    pub sample_history: Vec<CalibrationSample>,
}

/// A [`SyncStatus`] as mathematics.
pub struct SyncStatusView {
    pub drift_ms: i64,
    pub latency_ms: u64,
    pub elapsed_ms: u64,
    pub seek_offset_ms: u64,
    pub calibration_pending: bool,
    pub next_calibration_sample: Option<i64>,
    pub sample_history: Seq<CalibrationSample>,
}

impl View for SyncStatus {
    type V = SyncStatusView;

    open spec fn view(&self) -> SyncStatusView {
        SyncStatusView {
            drift_ms: self.drift_ms,
            latency_ms: self.latency_ms,
            elapsed_ms: self.elapsed_ms,
            seek_offset_ms: self.seek_offset_ms,
            calibration_pending: self.calibration_pending,
            next_calibration_sample: self.next_calibration_sample,
            sample_history: self.sample_history@,
        }
    }
}

/// What the player is told to do.
#[derive(Debug, PartialEq, Eq)]
pub enum PlayerCommand {
    /// Play the song with this identifier.
    PlayItem { song_id: String },
    /// Move to this position.
    Seek { position_ms: u64 },
    Play,
    Pause,
}

/// A [`PlayerCommand`] as mathematics.
pub enum PlayerCommandView {
    PlayItem { song_id: Seq<char> },
    Seek { position_ms: u64 },
    Play,
    Pause,
}

impl View for PlayerCommand {
    type V = PlayerCommandView;

    open spec fn view(&self) -> PlayerCommandView {
        match *self {
            PlayerCommand::PlayItem { song_id } => PlayerCommandView::PlayItem {
                song_id: song_id@,
            },
            PlayerCommand::Seek { position_ms } => PlayerCommandView::Seek { position_ms },
            PlayerCommand::Play => PlayerCommandView::Play,
            PlayerCommand::Pause => PlayerCommandView::Pause,
        }
    }
}

/// What the user is told.
#[derive(Debug, PartialEq, Eq)]
pub enum Notification {
    RoomStateChanged(RoomState),
    TrackChanged(Option<TrackInfo>),
    PlaybackChanged(PlaybackInfo),
    ParticipantJoined(Participant),
    ParticipantLeft(String),
    RoomEnded(String),
    Error(String),
    Connected,
    Disconnected,
    SyncStatus(SyncStatus),
}

/// A [`Notification`] as mathematics.
pub enum NotificationView {
    RoomStateChanged(ShownRoomView),
    TrackChanged(Option<ShownTrackView>),
    PlaybackChanged(PlaybackInfo),
    ParticipantJoined(ParticipantView),
    ParticipantLeft(Seq<char>),
    RoomEnded(Seq<char>),
    Error(Seq<char>),
    Connected,
    Disconnected,
    SyncStatus(SyncStatusView),
}

impl View for Notification {
    type V = NotificationView;

    open spec fn view(&self) -> NotificationView {
        match *self {
            Notification::RoomStateChanged(room) => NotificationView::RoomStateChanged(room@),
            Notification::TrackChanged(track) => NotificationView::TrackChanged(
                option_shown_view(track),
            ),
            Notification::PlaybackChanged(playback) => NotificationView::PlaybackChanged(playback),
            Notification::ParticipantJoined(participant) => NotificationView::ParticipantJoined(
                participant@,
            ),
            Notification::ParticipantLeft(peer_id) => NotificationView::ParticipantLeft(peer_id@),
            Notification::RoomEnded(reason) => NotificationView::RoomEnded(reason@),
            Notification::Error(message) => NotificationView::Error(message@),
            Notification::Connected => NotificationView::Connected,
            Notification::Disconnected => NotificationView::Disconnected,
            Notification::SyncStatus(status) => NotificationView::SyncStatus(status@),
        }
    }
}

/// A seek that is to be made once the player has loaded a track.
#[derive(Debug, Clone, Copy, PartialEq, Eq)]
pub struct PendingSeek {
    /// Where the host was.
    pub position_ms: u64,
    /// The host's wall clock when it was there.
    pub timestamp_ms: u64,
    /// Whether the host was playing, so that its position has moved on
    /// since.
    pub extrapolate: bool,
}

/// What is to follow from something that happened. Actions are carried out
/// in their order.
#[derive(Debug, PartialEq, Eq)]
pub enum Action {
    /// Tell the network task.
    Network(NetworkCommand),
    /// Tell the player. Failures are passed over.
    Player(PlayerCommand),
    /// Tell the user.
    Notify(Notification),
    /// Let some time pass.
    Wait { millis: u64 },
    /// Ask the player what it plays until it is the song `song_id` or
    /// `TRACK_LOAD_TIMEOUT_MS` have passed, then report to
    /// `track_loaded`.
    AwaitTrack { song_id: String, then: PendingSeek },
    /// Ask the player where it stands and report to `heartbeat_observed`,
    /// then ask it whether it plays and report to `heartbeat_finished`.
    ObservePlayback { heartbeat: PlaybackInfo, latency_ms: u64, seek_offset_ms: u64 },
    /// Start to call `host_polled` every `HOST_POLL_INTERVAL_MS`.
    StartHostLoop,
    StopHostLoop,
    /// Start to call `ping_tick` every `PING_INTERVAL_MS`.
    StartPingLoop,
    StopPingLoop,
    /// Send what `join_request_due` gives, up to `JOIN_RETRY_ATTEMPTS`
    /// times.
    ScheduleJoinRequests { room_code: String },
    /// Tell after `JOIN_TIMEOUT_MS` what `join_timed_out` gives.
    ScheduleJoinTimeout { room_code: String },
}

/// An [`Action`] as mathematics.
pub enum ActionView {
    Network(NetworkCommandView),
    Player(PlayerCommandView),
    Notify(NotificationView),
    Wait { millis: u64 },
    AwaitTrack { song_id: Seq<char>, then: PendingSeek },
    ObservePlayback { heartbeat: PlaybackInfo, latency_ms: u64, seek_offset_ms: u64 },
    StartHostLoop,
    StopHostLoop,
    StartPingLoop,
    StopPingLoop,
    ScheduleJoinRequests { room_code: Seq<char> },
    ScheduleJoinTimeout { room_code: Seq<char> },
}

impl View for Action {
    type V = ActionView;

    open spec fn view(&self) -> ActionView {
        match *self {
            Action::Network(command) => ActionView::Network(command@),
            Action::Player(command) => ActionView::Player(command@),
            Action::Notify(notification) => ActionView::Notify(notification@),
            Action::Wait { millis } => ActionView::Wait { millis },
            Action::AwaitTrack { song_id, then } => ActionView::AwaitTrack {
                song_id: song_id@,
                then,
            },
            Action::ObservePlayback { heartbeat, latency_ms, seek_offset_ms } => {
                ActionView::ObservePlayback { heartbeat, latency_ms, seek_offset_ms }
            },
            Action::StartHostLoop => ActionView::StartHostLoop,
            Action::StopHostLoop => ActionView::StopHostLoop,
            Action::StartPingLoop => ActionView::StartPingLoop,
            Action::StopPingLoop => ActionView::StopPingLoop,
            Action::ScheduleJoinRequests { room_code } => ActionView::ScheduleJoinRequests {
                room_code: room_code@,
            },
            Action::ScheduleJoinTimeout { room_code } => ActionView::ScheduleJoinTimeout {
                room_code: room_code@,
            },
        }
    }
}

/// A list of actions as mathematics.
pub open spec fn actions_view(actions: Seq<Action>) -> Seq<ActionView> {
    actions.map_values(|action: Action| action@)
}

/// Adds `action` at the end of `actions`.
pub fn emit(actions: &mut Vec<Action>, action: Action)
    ensures
        actions_view(final(actions)@) == actions_view(old(actions)@).push(action@),
{
    actions.push(action);
    assert(actions_view(actions@) =~= actions_view(old(actions)@).push(action@));
}

/// No actions.
pub fn no_actions() -> (actions: Vec<Action>)
    ensures
        actions_view(actions@) == Seq::<ActionView>::empty(),
{
    let actions = Vec::new();
    assert(actions_view(actions@) =~= Seq::<ActionView>::empty());
    actions
}

} // verus!
