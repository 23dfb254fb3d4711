//! What a session does when time passes.
//!
//! A host asks its player every `HOST_POLL_INTERVAL_MS` what it plays and
//! tells the room: a change of track if the song is another than the one it
//! told last, a heartbeat otherwise. A listener pings every
//! `PING_INTERVAL_MS` and, in the same tick, gives the host up if it has not
//! been heard of for `HEARTBEAT_TIMEOUT_MS`.

use crate::cider::types::{NowPlaying, NowPlayingView};
use crate::session::engine::{broadcast, send, Session, SessionView, Step};
use crate::session::handlers::{notify, player};
use crate::session::timing::HEARTBEAT_TIMEOUT_MS;
use crate::session::types::{
    actions_view, emit, no_actions, shown_track, Action, Notification, NotificationView,
    PlayerCommand, PlayerCommandView, TrackInfo as ShownTrack,
};
use crate::sync::protocol::{option_string_view, PlaybackInfo, SyncMessage, SyncMessageView};
use crate::sync::state::{Room, RoomStateView, RoomView};
use vstd::prelude::*;
use vstd::string::StringExecFns;

verus! {

impl SessionView {
    /// The host's player said what it plays and whether it plays, at
    /// `wall_ms` on the wall clock. The host notes it and tells the room:
    /// a change of track where the song is another than the one told last,
    /// a heartbeat otherwise.
    pub open spec fn on_host_polled(
        self,
        playing: NowPlayingView,
        is_playing: bool,
        wall_ms: u64,
        now_ns: u64,
    ) -> Step {
        match self.room {
            RoomView::Active(room) => {
                if !room.is_host() {
                    self.unchanged()
                } else {
                    let playback = PlaybackInfo {
                        is_playing,
                        position_ms: playing.position_ms,
                        timestamp_ms: wall_ms,
                    };
                    if self.last_broadcast_track_id != playing.song_id {
                        let track = playing.track();
                        let next = (RoomStateView {
                            current_track: Some(track),
                            ..room
                        }).playback_updated(playback, now_ns);
                        Step {
                            session: SessionView {
                                last_broadcast_track_id: playing.song_id,
                                ..self.with_room(RoomView::Active(next))
                            },
                            actions: seq![
                                broadcast(
                                    SyncMessageView::TrackChange {
                                        track,
                                        position_ms: playing.position_ms,
                                        timestamp_ms: wall_ms,
                                    },
                                ),
                                notify(NotificationView::TrackChanged(Some(shown_track(track)))),
                            ],
                        }
                    } else {
                        Step {
                            session: self.with_room(
                                RoomView::Active(room.playback_updated(playback, now_ns)),
                            ),
                            actions: seq![
                                broadcast(
                                    SyncMessageView::Heartbeat {
                                        track_id: playing.song_id,
                                        playback,
                                    },
                                ),
                            ],
                        }
                    }
                }
            },
            _ => self.unchanged(),
        }
    }

    /// The session after a ping was sent at `wall_ms` on the wall clock
    /// and `now_ns` on the session's clock, and the ping.
    pub open spec fn pinged(self, wall_ms: u64, now_ns: u64) -> Step {
        Step {
            session: SessionView { latency: self.latency.ping_created(wall_ms, now_ns), ..self },
            actions: seq![broadcast(SyncMessageView::Ping { sent_at_ms: wall_ms })],
        }
    }

    /// Whether the listener goes on pinging after a tick at `now_ns`: it
    /// joins a room, or it is a listener whose host was heard of in time.
    pub open spec fn ping_loop_continues(self, now_ns: u64) -> bool {
        match self.room {
            RoomView::Joining { .. } => true,
            RoomView::Active(room) => !room.is_host() && !room.heartbeat_stale(
                now_ns,
                HEARTBEAT_TIMEOUT_MS,
            ),
            _ => false,
        }
    }

    /// A tick of the listener's loop. A listener whose host was not heard
    /// of for `HEARTBEAT_TIMEOUT_MS` pauses its player, tells the user
    /// that the room is over, and is in no room. One that joins, or whose
    /// host was heard of, pings. Anybody else does nothing.
    pub open spec fn on_ping_tick(self, wall_ms: u64, now_ns: u64) -> Step {
        match self.room {
            RoomView::Joining { .. } => self.pinged(wall_ms, now_ns),
            RoomView::Active(room) => {
                if room.is_host() {
                    self.unchanged()
                } else if room.heartbeat_stale(now_ns, HEARTBEAT_TIMEOUT_MS) {
                    Step {
                        session: self.with_room(RoomView::Idle),
                        actions: seq![
                            player(PlayerCommandView::Pause),
                            notify(NotificationView::RoomEnded("Host disconnected (timeout)"@)),
                        ],
                    }
                } else {
                    self.pinged(wall_ms, now_ns)
                }
            },
            _ => self.unchanged(),
        }
    }
}

/// Whether two optional strings hold the same.
pub fn same_option(a: &Option<String>, b: &Option<String>) -> (same: bool)
    ensures
        same == (option_string_view(*a) == option_string_view(*b)),
{
    match a {
        Some(a) => match b {
            Some(b) => *a.as_str() == *b.as_str(),
            None => false,
        },
        None => b.is_none(),
    }
}

impl Session {
    /// Whether the host's loop goes on: this peer is the host of its room.
    pub fn host_loop_continues(&self) -> (goes_on: bool)
        ensures
            goes_on == self@.is_host(),
    {
        self.is_host()
    }

    /// The host's player said what it plays and whether it plays.
    pub fn host_polled(&mut self, playing: &NowPlaying, is_playing: bool, wall_ms: u64, now_ns: u64) -> (actions:
        Vec<Action>)
        ensures
            final(self)@ == old(self)@.on_host_polled(playing@, is_playing, wall_ms, now_ns).session,
            actions_view(actions@) == old(self)@.on_host_polled(
                playing@,
                is_playing,
                wall_ms,
                now_ns,
            ).actions,
            final(self).clock == old(self).clock,
    {
        let mut actions = no_actions();
        let mut room = Room::Idle;
        core::mem::swap(&mut self.room, &mut room);
        match room {
            Room::Active(mut room) => {
                if room.is_host() {
                    let playback = PlaybackInfo {
                        is_playing,
                        position_ms: playing.position_ms,
                        timestamp_ms: wall_ms,
                    };
                    if !same_option(&self.last_broadcast_track_id, &playing.song_id_owned()) {
                        self.last_broadcast_track_id = playing.song_id_owned();
                        room.update_track(Some(playing.track()));
                        room.update_playback_at(playback, now_ns);
                        emit(
                            &mut actions,
                            send(
                                SyncMessage::TrackChange {
                                    track: playing.track(),
                                    position_ms: playing.position_ms,
                                    timestamp_ms: wall_ms,
                                },
                            ),
                        );
                        emit(
                            &mut actions,
                            Action::Notify(
                                Notification::TrackChanged(
                                    Some(ShownTrack::from_track(&playing.track())),
                                ),
                            ),
                        );
                    } else {
                        room.update_playback_at(playback, now_ns);
                        emit(
                            &mut actions,
                            send(
                                SyncMessage::Heartbeat {
                                    track_id: playing.song_id_owned(),
                                    playback,
                                },
                            ),
                        );
                    }
                }
                self.room = Room::Active(room);
            },
            other => {
                self.room = other;
            },
        }
        actions
    }

    /// A tick of the listener's loop at `wall_ms` on the wall clock and
    /// `now_ns` on the session's clock. Returns the actions and whether
    /// the loop goes on.
    pub fn ping_tick(&mut self, wall_ms: u64, now_ns: u64) -> (tick: (Vec<Action>, bool))
        ensures
            final(self)@ == old(self)@.on_ping_tick(wall_ms, now_ns).session,
            actions_view(tick.0@) == old(self)@.on_ping_tick(wall_ms, now_ns).actions,
            tick.1 == old(self)@.ping_loop_continues(now_ns),
            final(self).clock == old(self).clock,
    {
        let mut actions = no_actions();
        let (listens, gone) = match &self.room {
            Room::Joining { .. } => (true, false),
            Room::Active(room) => (
                !room.is_host(),
                room.is_heartbeat_stale_at(now_ns, HEARTBEAT_TIMEOUT_MS),
            ),
            _ => (false, false),
        };
        if !listens {
            return (actions, false);
        }
        if gone {
            emit(&mut actions, Action::Player(PlayerCommand::Pause));
            emit(
                &mut actions,
                Action::Notify(
                    Notification::RoomEnded(String::from_str("Host disconnected (timeout)")),
                ),
            );
            self.room = Room::Idle;
            return (actions, false);
        }
        let sent_at_ms = self.latency.create_ping_at(wall_ms, now_ns);
        emit(&mut actions, send(SyncMessage::Ping { sent_at_ms }));
        (actions, true)
    }
}

} // verus!
