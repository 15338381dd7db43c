use bentley::now_playing::NowPlayingView;
use bentley::spotify::SpotifyTrack;

fn track(progress_ms: u32, duration_ms: u32, is_playing: bool) -> Option<SpotifyTrack> {
    Some(SpotifyTrack {
        title: String::from("Song"),
        artist: vec![String::from("Artist")],
        album: String::from("Album"),
        album_art_url: String::from("art-key"),
        progress_ms,
        duration_ms,
        is_playing,
    })
}

#[test]
fn lifecycle_enter_and_exit() {
    let mut v = NowPlayingView::new();
    assert!(!v.has_track());
    v.on_enter();
    v.update(0, &track(100, 1000, true));
    assert!(v.has_track());
    v.on_exit();
    assert!(!v.has_track());
}

#[test]
fn playing_track_advances_by_delta() {
    let mut v = NowPlayingView::new();
    v.on_enter();
    v.update(16, &track(100, 1000, true));
    assert_eq!(v.progress_ms(), 116);
    assert_eq!(v.duration_ms(), 1000);
}

#[test]
fn progress_is_clamped_at_track_end() {
    let mut v = NowPlayingView::new();
    v.on_enter();
    v.update(5000, &track(900, 1000, true));
    assert_eq!(v.progress_ms(), 1000);
}

#[test]
fn paused_track_does_not_advance() {
    let mut v = NowPlayingView::new();
    v.on_enter();
    v.update(500, &track(100, 1000, false));
    assert_eq!(v.progress_ms(), 100);
}

#[test]
fn empty_snapshot_clears_display() {
    let mut v = NowPlayingView::new();
    v.on_enter();
    v.update(16, &track(100, 1000, true));
    v.update(16, &None);
    assert!(!v.has_track());
}
