//! Where the host is by now, and how far a listener is from it.
//!
//! Every message that carries a position carries the sender's wall clock at
//! the moment the position was read. The receiver extrapolates by its own
//! wall clock: no clocks are synchronized, only the delay on the network is
//! made up for by the estimated latency.

use crate::session::types::PendingSeek;
use crate::sync::protocol::PlaybackInfo;
use vstd::prelude::*;

verus! {

/// A listener that is further than this from where the host is seeks, in
/// milliseconds.
pub const DRIFT_THRESHOLD_MS: u64 = 3000;

/// The host is taken to be gone after this many milliseconds without a
/// heartbeat.
pub const HEARTBEAT_TIMEOUT_MS: u64 = 15_000;

/// The host tells where it is every so many milliseconds.
pub const HOST_POLL_INTERVAL_MS: u64 = 1500;

/// A listener pings every so many milliseconds.
pub const PING_INTERVAL_MS: u64 = 5000;

/// A track is waited for this long to load, in milliseconds.
pub const TRACK_LOAD_TIMEOUT_MS: u64 = 5000;

/// While a track loads the player is asked every so many milliseconds.
pub const TRACK_LOAD_POLL_MS: u64 = 100;

/// After the player was told to play an item it is left alone for this
/// long before it is told to seek, in milliseconds.
pub const PLAY_SETTLE_MS: u64 = 100;

/// A listener asks to be let in up to this many times.
pub const JOIN_RETRY_ATTEMPTS: u64 = 5;

/// The time before the first request to be let in, in milliseconds.
pub const JOIN_RETRY_DELAY_MS: u64 = 500;

/// The time between two requests to be let in, in milliseconds.
pub const JOIN_RETRY_INTERVAL_MS: u64 = 1000;

/// A room that did not answer after this many milliseconds is not there.
pub const JOIN_TIMEOUT_MS: u64 = 10_000;

/// A sum as a `u64`, the largest one where it does not fit.
pub open spec fn saturate_u64(value: int) -> u64 {
    if value > u64::MAX {
        u64::MAX
    } else if value < 0 {
        0
    } else {
        value as u64
    }
}

/// A difference as an `i64`, the nearest one where it does not fit.
pub open spec fn saturate_to_i64(value: int) -> i64 {
    if value > i64::MAX {
        i64::MAX
    } else if value < i64::MIN {
        i64::MIN
    } else {
        value as i64
    }
}

/// The milliseconds from `timestamp_ms` to `now_ms` on the wall clock, zero
/// where the timestamp lies ahead.
pub open spec fn elapsed_since(timestamp_ms: u64, now_ms: u64) -> u64 {
    if now_ms >= timestamp_ms {
        (now_ms - timestamp_ms) as u64
    } else {
        0
    }
}

/// Where the host is at `now_ms`, seen from a listener whose latency to
/// the host is `latency_ms`: where it said it was, and, if it plays, the
/// time since and the latency on top. The seek offset is no part of it.
pub open spec fn expected_position(playback: PlaybackInfo, now_ms: u64, latency_ms: u64) -> u64 {
    if playback.is_playing {
        saturate_u64(
            playback.position_ms + elapsed_since(playback.timestamp_ms, now_ms) + latency_ms,
        )
    } else {
        playback.position_ms
    }
}

/// How far a listener at `actual_ms` is from the host at `expected_ms`:
/// positive ahead, negative behind.
pub open spec fn signed_drift(actual_ms: u64, expected_ms: u64) -> i64 {
    saturate_to_i64(actual_ms - expected_ms)
}

/// Whether a drift is so large that the listener seeks: strictly more than
/// `DRIFT_THRESHOLD_MS` to either side.
pub open spec fn needs_resync(drift_ms: i64) -> bool {
    drift_ms > DRIFT_THRESHOLD_MS || drift_ms < -DRIFT_THRESHOLD_MS
}

/// Where to seek to land on `position_ms`: the seek offset further on.
pub open spec fn seek_position(position_ms: u64, seek_offset_ms: u64) -> u64 {
    saturate_u64(position_ms + seek_offset_ms)
}

/// Where to seek once a track has loaded at `now_ms`: where the host was,
/// and, if it was playing, the time since and the seek offset on top.
pub open spec fn pending_seek_position(pending: PendingSeek, now_ms: u64, seek_offset_ms: u64) -> u64 {
    if pending.extrapolate {
        saturate_u64(
            pending.position_ms + elapsed_since(pending.timestamp_ms, now_ms) + seek_offset_ms,
        )
    } else {
        pending.position_ms
    }
}

/// The sum of three, saturating.
fn add3(a: u64, b: u64, c: u64) -> (sum: u64)
    ensures
        sum == saturate_u64(a + b + c),
{
    let total = a as u128 + b as u128 + c as u128;
    if total > u64::MAX as u128 {
        u64::MAX
    } else {
        total as u64
    }
}

/// The milliseconds from `timestamp_ms` to `now_ms`.
pub fn elapsed_ms(timestamp_ms: u64, now_ms: u64) -> (elapsed: u64)
    ensures
        elapsed == elapsed_since(timestamp_ms, now_ms),
{
    if now_ms >= timestamp_ms {
        now_ms - timestamp_ms
    } else {
        0
    }
}

/// Where the host is at `now_ms`.
pub fn expected_position_ms(playback: &PlaybackInfo, now_ms: u64, latency_ms: u64) -> (expected: u64)
    ensures
        expected == expected_position(*playback, now_ms, latency_ms),
{
    if playback.is_playing {
        add3(playback.position_ms, elapsed_ms(playback.timestamp_ms, now_ms), latency_ms)
    } else {
        playback.position_ms
    }
}

/// How far a listener at `actual_ms` is from the host at `expected_ms`.
pub fn drift_ms(actual_ms: u64, expected_ms: u64) -> (drift: i64)
    ensures
        drift == signed_drift(actual_ms, expected_ms),
{
    let difference = actual_ms as i128 - expected_ms as i128;
    if difference > i64::MAX as i128 {
        i64::MAX
    } else if difference < i64::MIN as i128 {
        i64::MIN
    } else {
        difference as i64
    }
}

/// Whether a listener with this drift seeks. A drift of exactly
/// `DRIFT_THRESHOLD_MS` does not make it seek.
pub fn drift_needs_resync(drift_ms: i64) -> (resync: bool)
    ensures
        resync == needs_resync(drift_ms),
        drift_ms == DRIFT_THRESHOLD_MS ==> !resync,
        drift_ms == -DRIFT_THRESHOLD_MS ==> !resync,
{
    drift_ms > DRIFT_THRESHOLD_MS as i64 || drift_ms < -(DRIFT_THRESHOLD_MS as i64)
}

/// Where to seek to land on `position_ms`.
pub fn seek_position_ms(position_ms: u64, seek_offset_ms: u64) -> (target: u64)
    ensures
        target == seek_position(position_ms, seek_offset_ms),
{
    add3(position_ms, seek_offset_ms, 0)
}

/// Where to seek once a track has loaded at `now_ms`.
pub fn pending_seek_position_ms(pending: &PendingSeek, now_ms: u64, seek_offset_ms: u64) -> (target:
    u64)
    ensures
        target == pending_seek_position(*pending, now_ms, seek_offset_ms),
{
    if pending.extrapolate {
        add3(pending.position_ms, elapsed_ms(pending.timestamp_ms, now_ms), seek_offset_ms)
    } else {
        pending.position_ms
    }
}

/// Whether the wait for the player to load the song `wanted` is over
/// when `elapsed_ms` have passed and the player plays `playing`: the player
/// plays the song, or more than `TRACK_LOAD_TIMEOUT_MS` have passed.
pub open spec fn track_wait_over(elapsed_ms: u64, playing: Option<Seq<char>>, wanted: Seq<char>) -> bool {
    elapsed_ms > TRACK_LOAD_TIMEOUT_MS || playing == Some(wanted)
}

/// Whether the wait for the player to load the song `wanted` is over.
pub fn is_track_wait_over(elapsed_ms: u64, playing: Option<&str>, wanted: &str) -> (over: bool)
    ensures
        over == track_wait_over(
            elapsed_ms,
            match playing {
                Some(song_id) => Some(song_id@),
                None => None,
            },
            wanted@,
        ),
{
    if elapsed_ms > TRACK_LOAD_TIMEOUT_MS {
        return true;
    }
    match playing {
        Some(song_id) => *song_id == *wanted,
        None => false,
    }
}

} // verus!
