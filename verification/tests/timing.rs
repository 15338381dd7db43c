use bentley::timing::DeltaTime;
use bentley::timing::FpsCounter;
use bentley::timing::PollSchedule;

#[test]
fn first_tick_yields_zero_delta() {
    let mut d = DeltaTime::new();
    assert_eq!(d.update(5000), 0);
    assert_eq!(d.update(5016), 16);
    assert_eq!(d.update(5116), 100);
}

#[test]
fn overrun_tick_reflects_actual_elapsed_time() {
    let mut d = DeltaTime::new();
    d.update(0);
    // a tick that overran its 16 ms budget: the next delta is the real gap
    assert_eq!(d.update(250), 250);
    assert_eq!(d.update(266), 16);
}

#[test]
fn fps_counter_publishes_exact_rate_after_a_second() {
    let mut c = FpsCounter::new();
    assert_eq!(c.fps(), 0);
    c.update(0);
    c.update(500);
    c.update(1000);
    // 3 frames over exactly 1000 ms: 3000 milli-frames-per-second
    assert_eq!(c.fps(), 3000);
}

#[test]
fn fps_counter_waits_for_a_full_window() {
    let mut c = FpsCounter::new();
    c.update(0);
    c.update(400);
    c.update(800);
    assert_eq!(c.fps(), 0);
    c.update(1600);
    // 4 frames over 1600 ms: 2500 milli-frames-per-second
    assert_eq!(c.fps(), 2500);
}

#[test]
fn poll_before_interval_elapses_changes_nothing() {
    let mut p = PollSchedule::new(200, 5000);
    assert!(p.poll_due(0, true));
    // well inside the foreground interval: not due, nothing recorded
    assert!(!p.poll_due(100, true));
    assert!(!p.poll_due(199, true));
    // the recorded poll time is unchanged, so 200 is still measured from 0
    assert!(p.poll_due(200, true));
}

#[test]
fn foreground_and_background_intervals_differ() {
    let mut p = PollSchedule::new(200, 5000);
    assert!(p.poll_due(0, false));
    assert!(!p.poll_due(200, false));
    assert!(!p.poll_due(4999, false));
    assert!(p.poll_due(5000, false));
    assert_eq!(p.current_interval(true), 200);
    assert_eq!(p.current_interval(false), 5000);
}

#[test]
fn backgrounded_service_polls_twice_in_ten_seconds() {
    // foreground 200 ms, background 5000 ms; the content is never
    // foregrounded, so over 10 simulated seconds of 200 ms ticks the
    // poller issues 2 polls (at 5 s and 10 s), not 50.
    let mut p = PollSchedule::new(200, 5000);
    assert!(p.poll_due(0, false));
    let mut polls: Vec<u64> = Vec::new();
    let mut t: u64 = 200;
    while t <= 10_000 {
        if p.poll_due(t, false) {
            polls.push(t);
        }
        t += 200;
    }
    assert_eq!(polls, vec![5000, 10_000]);
}
