use cider_core::cider::client::{
    base_url, check_failure, check_status, endpoint, nothing_playing, RequestFailure, DEFAULT_PORT,
};
use cider_core::cider::{Artwork, CiderError, NowPlaying, PlayParams};
use cider_core::session::types::TrackInfo as ShownTrack;
use cider_core::session::CoreError;
use cider_core::text::replace;

fn playing(url: &str, song_id: Option<&str>) -> NowPlaying {
    NowPlaying {
        play_params: song_id.map(|id| PlayParams { id: id.to_string(), kind: "song".to_string() }),
        name: "Song".to_string(),
        artist_name: "Artist".to_string(),
        album_name: "Album".to_string(),
        artwork: Artwork { width: 3000, height: 3000, url: url.to_string() },
        duration_in_millis: 123_456,
        position_ms: 42_500,
    }
}

#[test]
fn statuses() {
    assert_eq!(check_status(200), Ok(()));
    assert_eq!(check_status(204), Ok(()));
    assert_eq!(check_status(401), Err(CiderError::Unauthorized));
    assert_eq!(check_status(403), Err(CiderError::Unauthorized));
    assert_eq!(
        check_status(500),
        Err(CiderError::Api("Unexpected response (HTTP 500)".to_string()))
    );
    assert_eq!(check_status(0), Err(CiderError::Api("Unexpected response (HTTP 0)".to_string())));
    assert_eq!(
        check_status(65535),
        Err(CiderError::Api("Unexpected response (HTTP 65535)".to_string()))
    );
    assert!(nothing_playing(404));
    assert!(nothing_playing(204));
    assert!(!nothing_playing(200));
}

#[test]
fn failures_on_the_way() {
    assert_eq!(
        check_failure(RequestFailure::Connect("refused".to_string())),
        CiderError::Api("Connection refused (refused)".to_string())
    );
    assert_eq!(
        check_failure(RequestFailure::Timeout),
        CiderError::Api("Connection timed out".to_string())
    );
    assert_eq!(
        check_failure(RequestFailure::Other("dns".to_string())),
        CiderError::Api("Network error (dns)".to_string())
    );
}

#[test]
fn addresses_of_the_player() {
    assert_eq!(DEFAULT_PORT, 10767);
    assert_eq!(base_url(DEFAULT_PORT), "http://127.0.0.1:10767");
    assert_eq!(base_url(80), "http://127.0.0.1:80");
    assert_eq!(
        endpoint(&base_url(DEFAULT_PORT), "/now-playing"),
        "http://127.0.0.1:10767/api/v1/playback/now-playing"
    );
    assert_eq!(
        endpoint("http://127.0.0.1:1", "/queue/clear-queue"),
        "http://127.0.0.1:1/api/v1/playback/queue/clear-queue"
    );
}

#[test]
fn errors_in_words_and_for_the_user() {
    assert_eq!(CiderError::Http("x".to_string()).message(), "HTTP request failed: x");
    assert_eq!(CiderError::NotReachable.message(), "Cider is not running or not reachable");
    assert_eq!(CiderError::Unauthorized.message(), "Invalid API token");
    assert_eq!(CiderError::NothingPlaying.message(), "No track currently playing");
    assert_eq!(CiderError::Api("x".to_string()).message(), "API error: x");

    assert_eq!(
        CiderError::Unauthorized.into_connection_error(),
        CoreError::CiderApiError("Invalid API token".to_string())
    );
    assert_eq!(
        CiderError::Api("x".to_string()).into_connection_error(),
        CoreError::CiderApiError("x".to_string())
    );
    assert_eq!(
        CiderError::Http("x".to_string()).into_connection_error(),
        CoreError::NetworkError("x".to_string())
    );
    assert_eq!(
        CiderError::NotReachable.into_connection_error(),
        CoreError::CiderApiError("Cider is not running or not reachable".to_string())
    );
    assert_eq!(CiderError::NotReachable.into_query_error(), CoreError::CiderNotReachable);
    assert_eq!(
        CiderError::Api("x".to_string()).into_query_error(),
        CoreError::CiderApiError("API error: x".to_string())
    );
    assert_eq!(
        CiderError::Unauthorized.into_query_error(),
        CoreError::CiderApiError("Invalid API token".to_string())
    );
}

#[test]
fn artwork_slots_are_filled_in() {
    let np = playing("https://art.example/img/{w}x{h}bb.jpg", Some("123"));
    assert_eq!(np.artwork_url(600), "https://art.example/img/600x600bb.jpg");
    assert_eq!(np.artwork_url(0), "https://art.example/img/0x0bb.jpg");
    assert_eq!(np.artwork_url(u32::MAX), "https://art.example/img/4294967295x4294967295bb.jpg");
    let fixed = playing("https://art.example/img/cover.jpg", None);
    assert_eq!(fixed.artwork_url(600), "https://art.example/img/cover.jpg");
}

#[test]
fn what_the_player_plays_as_peers_are_told() {
    let np = playing("https://art.example/{w}/{h}", Some("123"));
    assert_eq!(np.song_id(), Some("123"));
    assert_eq!(np.song_id_owned(), Some("123".to_string()));
    assert_eq!(np.current_position_ms(), 42_500);
    let track = np.track();
    assert_eq!(track.song_id, "123");
    assert_eq!(track.name, "Song");
    assert_eq!(track.artist, "Artist");
    assert_eq!(track.album, "Album");
    assert_eq!(track.artwork_url, "https://art.example/600/600");
    assert_eq!(track.duration_ms, 123_456);

    let shown = ShownTrack::from_now_playing(&np);
    assert_eq!(shown.position_ms, 42_500);
    assert_eq!(shown.song_id, "123");
    assert_eq!(shown.artwork_url, "https://art.example/600/600");
    assert_eq!(ShownTrack::from_track(&track).position_ms, 0);
    assert_eq!(shown.to_track(), track);

    let unnamed = playing("x", None);
    assert_eq!(unnamed.song_id(), None);
    assert_eq!(unnamed.track().song_id, "");
}

#[test]
fn replacing_runs() {
    assert_eq!(replace("a{w}b{w}", "{w}", "12"), "a12b12");
    assert_eq!(replace("aaa", "aa", "b"), "ba");
    assert_eq!(replace("abc", "abcd", "x"), "abc");
    assert_eq!(replace("abc", "", "x"), "abc");
    assert_eq!(replace("", "a", "x"), "");
    assert_eq!(replace("xyz", "z", ""), "xy");
}
