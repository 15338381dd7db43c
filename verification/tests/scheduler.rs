use bentley::config::AirPlayConfig;
use bentley::config::AssetsConfig;
use bentley::config::Config;
use bentley::config::DisplayConfig;
use bentley::config::LoggingConfig;
use bentley::config::SpotifyConfig;
use bentley::config::ViewsConfig;
use bentley::context::ViewContext;
use bentley::scheduler::FrameScheduler;
use bentley::views::ServiceState;
use bentley::views::ViewId;

fn sample_config() -> Config {
    Config {
        display: DisplayConfig { fps: 60, fullscreen: true },
        airplay: AirPlayConfig {
            poll_interval_ms: 200,
            background_poll_interval_ms: 5000,
            state_file: String::from("/tmp/airplay_state"),
            background_fps: 10,
        },
        spotify: SpotifyConfig {
            poll_interval_ms: 1000,
            background_poll_interval_ms: 10_000,
            client_id: String::from("id"),
            client_secret: String::from("secret"),
            redirect_uri: String::from("http://localhost:8888/callback"),
            token_file: String::from("/tmp/token"),
        },
        views: ViewsConfig { default_view: ViewId::Visualizer, transition_duration_ms: 500 },
        logging: LoggingConfig { level: String::from("info") },
        assets: AssetsConfig { cache_dir: String::from("/tmp/assets"), max_cache_size_mb: 64 },
    }
}

#[test]
fn first_tick_has_zero_delta_and_polls_both_services() {
    let mut s = FrameScheduler::new(&sample_config());
    let plan = s.begin_tick(1000, true, true);
    assert_eq!(plan.delta_ms, 0);
    assert!(plan.poll_airplay);
    assert!(plan.poll_spotify);
}

#[test]
fn delta_reflects_elapsed_wall_time() {
    let mut s = FrameScheduler::new(&sample_config());
    s.begin_tick(1000, true, true);
    let plan = s.begin_tick(1016, true, true);
    assert_eq!(plan.delta_ms, 16);
}

#[test]
fn services_poll_only_when_due() {
    let mut s = FrameScheduler::new(&sample_config());
    s.begin_tick(0, true, true);
    // 100 ms later: airplay (200 ms) and spotify (1000 ms) both not due
    let plan = s.begin_tick(100, true, true);
    assert!(!plan.poll_airplay);
    assert!(!plan.poll_spotify);
    // 200 ms: airplay due, spotify still waiting
    let plan = s.begin_tick(200, true, true);
    assert!(plan.poll_airplay);
    assert!(!plan.poll_spotify);
    // 1000 ms: spotify due; airplay last polled at 200, so due as well
    let plan = s.begin_tick(1000, true, true);
    assert!(plan.poll_airplay);
    assert!(plan.poll_spotify);
}

#[test]
fn backgrounded_services_use_the_long_interval() {
    let mut s = FrameScheduler::new(&sample_config());
    s.begin_tick(0, false, false);
    let plan = s.begin_tick(1000, false, false);
    assert!(!plan.poll_airplay);
    assert!(!plan.poll_spotify);
    let plan = s.begin_tick(5000, false, false);
    assert!(plan.poll_airplay);
    assert!(!plan.poll_spotify);
    let plan = s.begin_tick(10_000, false, false);
    assert!(plan.poll_airplay);
    assert!(plan.poll_spotify);
}

#[test]
fn frame_interval_follows_display_state() {
    let s = FrameScheduler::new(&sample_config());
    assert_eq!(s.frame_interval_ms(true), 1000 / 60);
    assert_eq!(s.frame_interval_ms(false), 100);
    assert_eq!(s.next_deadline_ms(2000, true), 2000 + 1000 / 60);
    assert_eq!(s.next_deadline_ms(2000, false), 2100);
}

#[test]
fn context_carries_config_and_snapshots() {
    let mut ctx = ViewContext::new(sample_config());
    assert!(!ctx.services.airplay_active);
    assert!(!ctx.services.spotify_playing);
    assert_eq!(ctx.config.display.fps, 60);
    ctx.set_services(ServiceState { airplay_active: true, spotify_playing: false });
    assert!(ctx.services.airplay_active);
    assert_eq!(ctx.config.views.default_view, ViewId::Visualizer);
}
