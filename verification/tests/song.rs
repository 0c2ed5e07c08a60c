use site_core::elapsed::{format_time_delta, song_display_time};
use site_core::error::UpstreamError;
use site_core::song::{NowPlayingTrack, RecordedTrack, Song};
use site_core::state::SharedState;

fn playing(title: &str) -> NowPlayingTrack {
    NowPlayingTrack {
        artist: "Artist".to_string(),
        title: title.to_string(),
        album: "Album".to_string(),
        image_url: "https://example.com/cover.png".to_string(),
    }
}

fn recorded(title: &str, played_at: i64) -> RecordedTrack {
    RecordedTrack {
        artist: "Artist".to_string(),
        title: title.to_string(),
        album: "Album".to_string(),
        image_url: "https://example.com/cover.png".to_string(),
        played_at,
    }
}

#[test]
fn playing_track_wins_and_is_cached() {
    let mut state = SharedState::new(180, 2);
    let r: Result<Option<Song>, UpstreamError> =
        state.get_song(10, Ok(Some(playing("One"))), Ok(None));
    assert_eq!(r, Ok(Some(Song::Now(playing("One")))));
    // Within the window the answer is served from the slot, whatever the
    // upstream outcomes would be now.
    let again = state
        .get_song(
            11,
            Err(UpstreamError::UpstreamUnavailable),
            Err(UpstreamError::UpstreamUnavailable),
        )
        .unwrap();
    assert_eq!(again, Some(Song::Now(playing("One"))));
}

#[test]
fn recent_play_answers_when_nothing_is_streaming() {
    let mut state = SharedState::new(180, 2);
    let r: Result<Option<Song>, UpstreamError> =
        state.get_song(10, Ok(None), Ok(Some(recorded("Two", 5))));
    assert_eq!(r, Ok(Some(Song::Previous(recorded("Two", 5)))));
    let again = state
        .get_song(
            11,
            Err(UpstreamError::UpstreamUnavailable),
            Err(UpstreamError::UpstreamUnavailable),
        )
        .unwrap();
    assert_eq!(again, Some(Song::Previous(recorded("Two", 5))));
}

#[test]
fn empty_history_is_a_cacheable_answer() {
    let mut state = SharedState::new(180, 2);
    let r: Result<Option<Song>, UpstreamError> = state.get_song(10, Ok(None), Ok(None));
    assert_eq!(r, Ok(None));
    // The absent state is cached too: repeated calls within the window do
    // not consult the upstream outcomes.
    let again = state
        .get_song(
            11,
            Ok(Some(playing("Late"))),
            Err(UpstreamError::UpstreamUnavailable),
        )
        .unwrap();
    assert_eq!(again, None);
}

#[test]
fn slot_expires_and_the_next_state_is_resolved_anew() {
    let mut state = SharedState::new(180, 2);
    state
        .get_song::<UpstreamError>(10, Ok(Some(playing("One"))), Ok(None))
        .unwrap();
    // Two seconds later the slot has expired; the machine resolves afresh.
    let r = state
        .get_song::<UpstreamError>(12, Ok(None), Ok(Some(recorded("Two", 5))))
        .unwrap();
    assert_eq!(r, Some(Song::Previous(recorded("Two", 5))));
}

#[test]
fn now_playing_failure_fails_and_caches_nothing() {
    let mut state = SharedState::new(180, 2);
    let r: Result<Option<Song>, UpstreamError> =
        state.get_song(10, Err(UpstreamError::Unauthenticated), Ok(None));
    assert_eq!(r, Err(UpstreamError::Unauthenticated));
    let retry = state
        .get_song::<UpstreamError>(10, Ok(Some(playing("One"))), Ok(None))
        .unwrap();
    assert_eq!(retry, Some(Song::Now(playing("One"))));
}

#[test]
fn history_failure_fails_and_caches_nothing() {
    let mut state = SharedState::new(180, 2);
    let r: Result<Option<Song>, UpstreamError> =
        state.get_song(10, Ok(None), Err(UpstreamError::UpstreamUnavailable));
    assert_eq!(r, Err(UpstreamError::UpstreamUnavailable));
    let retry = state.get_song::<UpstreamError>(10, Ok(None), Ok(None)).unwrap();
    assert_eq!(retry, None);
}

#[test]
fn one_unit_is_singular() {
    assert_eq!(format_time_delta(3600), "1 hour ago");
    assert_eq!(format_time_delta(60), "1 minute ago");
    assert_eq!(format_time_delta(1), "1 second ago");
    assert_eq!(format_time_delta(86400), "1 day ago");
    assert_eq!(format_time_delta(604800), "1 week ago");
}

#[test]
fn more_than_one_unit_is_plural() {
    assert_eq!(format_time_delta(3 * 3600), "3 hours ago");
    assert_eq!(format_time_delta(2 * 604800), "2 weeks ago");
    assert_eq!(format_time_delta(59), "59 seconds ago");
    assert_eq!(format_time_delta(0), "0 seconds ago");
}

#[test]
fn largest_nonzero_unit_is_picked() {
    // 90 seconds is one minute, not ninety seconds.
    assert_eq!(format_time_delta(90), "1 minute ago");
    // A bit over two days is days, not hours or weeks.
    assert_eq!(format_time_delta(2 * 86400 + 3600), "2 days ago");
    // Just under a week stays in days.
    assert_eq!(format_time_delta(604799), "6 days ago");
    // 25 hours is a day.
    assert_eq!(format_time_delta(25 * 3600), "1 day ago");
}

#[test]
fn display_line_for_each_variant() {
    let now_line = song_display_time(&Song::Now(playing("One")), 1_000_000);
    assert_eq!(now_line, "now");
    let prev = Song::Previous(recorded("Two", 1_000_000 - 3 * 3600));
    assert_eq!(song_display_time(&prev, 1_000_000), "3 hours ago");
    // A timestamp slightly in the future (clock skew) is shown by its
    // magnitude, as the original display did.
    let skewed = Song::Previous(recorded("Three", 1_000_000 + 61));
    assert_eq!(song_display_time(&skewed, 1_000_000), "1 minute ago");
}
