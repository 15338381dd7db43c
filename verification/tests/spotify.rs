use bentley::spotify::SpotifyPollOutcome;
use bentley::spotify::SpotifyService;
use bentley::spotify::SpotifyTrack;

fn sample_track(progress_ms: u32, duration_ms: u32, is_playing: bool) -> SpotifyTrack {
    SpotifyTrack {
        title: String::from("Song"),
        artist: vec![String::from("Artist A"), String::from("Artist B")],
        album: String::from("Album"),
        album_art_url: String::from("https://example.invalid/art.jpg"),
        progress_ms,
        duration_ms,
        is_playing,
    }
}

#[test]
fn new_service_has_empty_snapshot() {
    let s = SpotifyService::new();
    assert!(s.get_current_track().is_none());
    assert!(!s.is_playing());
    assert_eq!(s.captured_at_ms(), 0);
    assert_eq!(s.failure_count(), 0);
}

#[test]
fn successful_poll_replaces_snapshot() {
    let mut s = SpotifyService::new();
    s.apply_poll(SpotifyPollOutcome::Success(Some(sample_track(1000, 3000, true))), 42);
    let t = s.get_current_track().as_ref().unwrap();
    assert_eq!(t.title, "Song");
    assert_eq!(t.progress_ms, 1000);
    assert!(s.is_playing());
    assert_eq!(s.captured_at_ms(), 42);
}

#[test]
fn raw_progress_is_clamped_to_duration() {
    let mut s = SpotifyService::new();
    s.apply_poll(SpotifyPollOutcome::Success(Some(sample_track(5000, 3000, true))), 1);
    let t = s.get_current_track().as_ref().unwrap();
    assert_eq!(t.progress_ms, 3000);
    assert_eq!(t.duration_ms, 3000);
}

#[test]
fn three_failures_in_a_row_retain_last_snapshot() {
    let mut s = SpotifyService::new();
    s.apply_poll(SpotifyPollOutcome::Success(Some(sample_track(1000, 3000, true))), 10);
    for _ in 0..3 {
        s.apply_poll(SpotifyPollOutcome::Failure, 20);
    }
    let t = s.get_current_track().as_ref().unwrap();
    assert_eq!(t.title, "Song");
    assert_eq!(t.progress_ms, 1000);
    assert!(s.is_playing());
    // the snapshot's timestamp is untouched by failures
    assert_eq!(s.captured_at_ms(), 10);
    // the failure count is observable for metrics
    assert_eq!(s.failure_count(), 3);
}

#[test]
fn success_resets_failure_count() {
    let mut s = SpotifyService::new();
    s.apply_poll(SpotifyPollOutcome::Failure, 1);
    s.apply_poll(SpotifyPollOutcome::Failure, 2);
    assert_eq!(s.failure_count(), 2);
    s.apply_poll(SpotifyPollOutcome::Success(None), 3);
    assert_eq!(s.failure_count(), 0);
    assert!(s.get_current_track().is_none());
    assert!(!s.is_playing());
    assert_eq!(s.captured_at_ms(), 3);
}

#[test]
fn missing_credentials_report_no_track_without_failing() {
    // an integration without valid credentials delivers Success(None)
    let mut s = SpotifyService::new();
    s.apply_poll(SpotifyPollOutcome::Success(Some(sample_track(1, 2, true))), 1);
    s.apply_poll(SpotifyPollOutcome::Success(None), 2);
    assert!(s.get_current_track().is_none());
    assert!(!s.is_playing());
    assert_eq!(s.failure_count(), 0);
}
