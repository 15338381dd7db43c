use bentley::views::Condition;
use bentley::views::LifecycleAction;
use bentley::views::SelectionRule;
use bentley::views::ServiceState;
use bentley::views::ViewId;
use bentley::views::ViewStateMachine;
use bentley::views::select_view;

fn default_rules() -> Vec<SelectionRule> {
    vec![
        SelectionRule { condition: Condition::AirPlayActive, view: ViewId::WallArt },
        SelectionRule { condition: Condition::SpotifyPlaying, view: ViewId::NowPlaying },
    ]
}

#[test]
fn first_enter_only_enters() {
    let mut m = ViewStateMachine::new();
    assert_eq!(m.active(), None);
    let actions = m.enter(ViewId::WallArt);
    assert_eq!(actions, vec![LifecycleAction::Enter(ViewId::WallArt)]);
    assert_eq!(m.active(), Some(ViewId::WallArt));
}

#[test]
fn enter_exits_previous_then_enters_next_exactly_once() {
    let mut m = ViewStateMachine::new();
    m.enter(ViewId::WallArt);
    let actions = m.enter(ViewId::NowPlaying);
    assert_eq!(
        actions,
        vec![
            LifecycleAction::Exit(ViewId::WallArt),
            LifecycleAction::Enter(ViewId::NowPlaying),
        ]
    );
    assert_eq!(m.active(), Some(ViewId::NowPlaying));
}

#[test]
fn selection_first_match_wins() {
    let rules = default_rules();
    let both = ServiceState { airplay_active: true, spotify_playing: true };
    assert_eq!(select_view(&rules, &both, ViewId::Visualizer), ViewId::WallArt);
    let spotify_only = ServiceState { airplay_active: false, spotify_playing: true };
    assert_eq!(select_view(&rules, &spotify_only, ViewId::Visualizer), ViewId::NowPlaying);
    let neither = ServiceState { airplay_active: false, spotify_playing: false };
    assert_eq!(select_view(&rules, &neither, ViewId::Visualizer), ViewId::Visualizer);
}

#[test]
fn selection_is_deterministic_for_identical_snapshots() {
    let rules = default_rules();
    let a = ServiceState { airplay_active: true, spotify_playing: true };
    let b = ServiceState { airplay_active: true, spotify_playing: true };
    let first = select_view(&rules, &a, ViewId::Lyrics);
    for _ in 0..10 {
        assert_eq!(select_view(&rules, &b, ViewId::Lyrics), first);
    }
}

#[test]
fn tick_select_transitions_only_on_change() {
    let mut m = ViewStateMachine::new();
    let rules = default_rules();
    let playing = ServiceState { airplay_active: false, spotify_playing: true };
    let actions = m.tick_select(&rules, &playing, ViewId::Visualizer, None);
    assert_eq!(actions, vec![LifecycleAction::Enter(ViewId::NowPlaying)]);
    let actions = m.tick_select(&rules, &playing, ViewId::Visualizer, None);
    assert!(actions.is_empty());
    assert_eq!(m.active(), Some(ViewId::NowPlaying));
}

#[test]
fn manual_override_short_circuits_rules() {
    let mut m = ViewStateMachine::new();
    let rules = default_rules();
    let playing = ServiceState { airplay_active: true, spotify_playing: true };
    let actions = m.tick_select(&rules, &playing, ViewId::Visualizer, Some(ViewId::Snake));
    assert_eq!(actions, vec![LifecycleAction::Enter(ViewId::Snake)]);
    assert_eq!(m.active(), Some(ViewId::Snake));
}

#[test]
fn shutdown_exits_active_view_exactly_once() {
    let mut m = ViewStateMachine::new();
    m.enter(ViewId::Tetris);
    let actions = m.shutdown();
    assert_eq!(actions, vec![LifecycleAction::Exit(ViewId::Tetris)]);
    assert_eq!(m.active(), None);
    let again = m.shutdown();
    assert!(again.is_empty());
}
