//! What the player reports.

use crate::sync::protocol::{option_string_view, TrackInfo, TrackInfoView};
use crate::text::{decimal, push_decimal, replace, replace_all};
use vstd::prelude::*;
use vstd::string::StringExecFns;

verus! {

/// The side length, in pixels, of the artwork that peers are told of.
pub const ARTWORK_SIZE: u32 = 600;

/// The artwork of a track. The address holds the slots `{w}` and `{h}` for
/// the width and the height that are asked for.
#[derive(Debug, PartialEq, Eq)]
pub struct Artwork {
    pub width: u32,
    pub height: u32,
    pub url: String,
}

/// By what the player is asked to play a track.
#[derive(Debug, PartialEq, Eq)]
pub struct PlayParams {
    pub id: String,
    pub kind: String,
}

/// The track that the player is playing.
#[derive(Debug, PartialEq, Eq)]
pub struct NowPlaying {
    pub play_params: Option<PlayParams>,
    pub name: String,
    pub artist_name: String,
    pub album_name: String,
    pub artwork: Artwork,
    pub duration_in_millis: u64,
    /// Where playback stands, in milliseconds.
    pub position_ms: u64,
}

/// A [`NowPlaying`] as mathematics.
pub struct NowPlayingView {
    /// The player's identifier of the song, where it has one.
    pub song_id: Option<Seq<char>>,
    pub name: Seq<char>,
    pub artist_name: Seq<char>,
    pub album_name: Seq<char>,
    /// The address of the artwork, with its slots.
    pub artwork_url: Seq<char>,
    pub duration_in_millis: u64,
    pub position_ms: u64,
}

impl View for NowPlaying {
    type V = NowPlayingView;

    open spec fn view(&self) -> NowPlayingView {
        NowPlayingView {
            song_id: match self.play_params {
                Some(params) => Some(params.id@),
                None => None,
            },
            name: self.name@,
            artist_name: self.artist_name@,
            album_name: self.album_name@,
            artwork_url: self.artwork.url@,
            duration_in_millis: self.duration_in_millis,
            position_ms: self.position_ms,
        }
    }
}

/// The address of an artwork of `size` pixels a side: the slots for width
/// and height filled in.
pub open spec fn sized_artwork(url: Seq<char>, size: u32) -> Seq<char> {
    replace_all(
        replace_all(replace_all(url, "{w}"@, decimal(size as nat)), "{h}"@, decimal(size as nat)),
        "/{w}x{h}"@,
        "/"@ + decimal(size as nat) + "x"@ + decimal(size as nat),
    )
}

impl NowPlayingView {
    /// The track as peers are told of it: under its song id, or under the
    /// empty id where the player gave none, with its artwork at
    /// `ARTWORK_SIZE`.
    pub open spec fn track(self) -> TrackInfoView {
        TrackInfoView {
            song_id: match self.song_id {
                Some(song_id) => song_id,
                None => Seq::empty(),
            },
            name: self.name,
            artist: self.artist_name,
            album: self.album_name,
            artwork_url: sized_artwork(self.artwork_url, ARTWORK_SIZE),
            duration_ms: self.duration_in_millis,
        }
    }
}

impl NowPlaying {
    /// The player's identifier of the song, where it has one.
    pub fn song_id(&self) -> (song_id: Option<&str>)
        ensures
            song_id is Some <==> self@.song_id is Some,
            song_id matches Some(id) ==> self@.song_id == Some(id@),
    {
        match &self.play_params {
            Some(params) => Some(params.id.as_str()),
            None => None,
        }
    }

    /// The player's identifier of the song, copied.
    pub fn song_id_owned(&self) -> (song_id: Option<String>)
        ensures
            option_string_view(song_id) == self@.song_id,
    {
        match &self.play_params {
            Some(params) => Some(params.id.clone()),
            None => None,
        }
    }

    /// Where playback stands, in milliseconds.
    pub fn current_position_ms(&self) -> (position_ms: u64)
        ensures
            position_ms == self@.position_ms,
    {
        self.position_ms
    }

    /// The address of the artwork at `size` pixels a side.
    pub fn artwork_url(&self, size: u32) -> (url: String)
        ensures
            url@ == sized_artwork(self@.artwork_url, size),
    {
        let mut side = String::new();
        push_decimal(&mut side, size as u64);
        let mut both = String::from_str("/");
        both.append(side.as_str());
        both.append("x");
        both.append(side.as_str());
        proof {
            assert(side@ =~= decimal(size as nat));
        }
        let width = replace(self.artwork.url.as_str(), "{w}", side.as_str());
        let height = replace(width.as_str(), "{h}", side.as_str());
        replace(height.as_str(), "/{w}x{h}", both.as_str())
    }

    /// The track as peers are told of it.
    pub fn track(&self) -> (track: TrackInfo)
        ensures
            track@ == self@.track(),
    {
        TrackInfo {
            song_id: match &self.play_params {
                Some(params) => params.id.clone(),
                None => String::new(),
            },
            name: self.name.clone(),
            artist: self.artist_name.clone(),
            album: self.album_name.clone(),
            artwork_url: self.artwork_url(ARTWORK_SIZE),
            duration_ms: self.duration_in_millis,
        }
    }
}

} // verus!
