//! The frame scheduler: the render-loop driver.
//!
//! Each tick, in order, the surrounding loop (a) asks the scheduler which
//! services are due and polls exactly those, (b) feeds the fresh snapshots
//! to the view state machine's auto-selection, (c) invokes the active
//! view's `update` with the tick's delta time, and (d) sleeps until the
//! deadline the scheduler computes from the frame rate in force — never
//! busy-spinning. A tick that overruns its budget is not caught up: the
//! next delta simply reflects the actual elapsed wall time.

use vstd::prelude::*;
use crate::config::Config;
use crate::timing::DeltaTime;
use crate::timing::PollSchedule;
use crate::timing::spec_delta;

verus! {

/// What one tick must do: the delta time to hand to the active view's
/// `update`, and which services' polls fell due and were recorded.
#[derive(Clone, Copy, PartialEq, Eq, Structural, Debug)]
pub struct TickPlan {
    pub delta_ms: u64,
    pub poll_airplay: bool,
    pub poll_spotify: bool,
}

/// The frame scheduler: owns delta-time computation, the frame-rate
/// targets, and both services' differential-rate poll schedules.
pub struct FrameScheduler {
    delta: DeltaTime,
    fps: u32,
    background_fps: u32,
    airplay_schedule: PollSchedule,
    spotify_schedule: PollSchedule,
}

impl FrameScheduler {
    /// The delta-time calculator's state.
    pub closed spec fn spec_delta_state(&self) -> DeltaTime {
        self.delta
    }

    /// Target frame rate while a view renders to the user.
    pub closed spec fn spec_fps(&self) -> u32 {
        self.fps
    }

    /// Target frame rate while the display is conceptually idle.
    pub closed spec fn spec_background_fps(&self) -> u32 {
        self.background_fps
    }

    /// The AirPlay poll schedule.
    pub closed spec fn spec_airplay_schedule(&self) -> PollSchedule {
        self.airplay_schedule
    }

    /// The Spotify poll schedule.
    pub closed spec fn spec_spotify_schedule(&self) -> PollSchedule {
        self.spotify_schedule
    }

    /// Frame pacing needs non-zero rates in both display states.
    pub open spec fn wf(&self) -> bool {
        self.spec_fps() >= 1 && self.spec_background_fps() >= 1
    }

    /// A scheduler configured from the runtime configuration: frame rates
    /// from the display settings, one foreground/background interval pair
    /// per service, and no tick seen yet.
    pub fn new(config: &Config) -> (s: FrameScheduler)
        requires
            config.wf(),
        ensures
            s.wf(),
            s.spec_fps() == config.display.fps,
            s.spec_background_fps() == config.airplay.background_fps,
            s.spec_delta_state().spec_last_frame_ms() is None,
            s.spec_airplay_schedule().spec_foreground_interval_ms()
                == config.airplay.poll_interval_ms,
            s.spec_airplay_schedule().spec_background_interval_ms()
                == config.airplay.background_poll_interval_ms,
            s.spec_airplay_schedule().spec_last_poll_ms() is None,
            s.spec_spotify_schedule().spec_foreground_interval_ms()
                == config.spotify.poll_interval_ms,
            s.spec_spotify_schedule().spec_background_interval_ms()
                == config.spotify.background_poll_interval_ms,
            s.spec_spotify_schedule().spec_last_poll_ms() is None,
    {
        FrameScheduler {
            delta: DeltaTime::new(),
            fps: config.display.fps,
            background_fps: config.airplay.background_fps,
            airplay_schedule: PollSchedule::new(
                config.airplay.poll_interval_ms,
                config.airplay.background_poll_interval_ms,
            ),
            spotify_schedule: PollSchedule::new(
                config.spotify.poll_interval_ms,
                config.spotify.background_poll_interval_ms,
            ),
        }
    }

    /// Starts one tick: computes the delta time (zero on the first tick,
    /// actual elapsed wall time after that) and records a poll against
    /// each service whose interval in force has elapsed. A service that is
    /// not due keeps its schedule unchanged, so no redundant I/O is
    /// requested; `foreground` flags say whether each service's content is
    /// currently on screen.
    pub fn begin_tick(
        &mut self,
        now_ms: u64,
        airplay_foreground: bool,
        spotify_foreground: bool,
    ) -> (plan: TickPlan)
        ensures
            final(self).wf() == old(self).wf(),
            final(self).spec_fps() == old(self).spec_fps(),
            final(self).spec_background_fps() == old(self).spec_background_fps(),
            plan.delta_ms == spec_delta(
                old(self).spec_delta_state().spec_last_frame_ms(),
                now_ms,
            ),
            final(self).spec_delta_state().spec_last_frame_ms() == Some(now_ms),
            plan.poll_airplay == old(self).spec_airplay_schedule().spec_is_due(
                now_ms,
                airplay_foreground,
            ),
            plan.poll_spotify == old(self).spec_spotify_schedule().spec_is_due(
                now_ms,
                spotify_foreground,
            ),
            plan.poll_airplay ==> final(self).spec_airplay_schedule().spec_last_poll_ms()
                == Some(now_ms),
            !plan.poll_airplay ==> final(self).spec_airplay_schedule() == old(
                self,
            ).spec_airplay_schedule(),
            plan.poll_spotify ==> final(self).spec_spotify_schedule().spec_last_poll_ms()
                == Some(now_ms),
            !plan.poll_spotify ==> final(self).spec_spotify_schedule() == old(
                self,
            ).spec_spotify_schedule(),
            final(self).spec_airplay_schedule().spec_foreground_interval_ms() == old(
                self,
            ).spec_airplay_schedule().spec_foreground_interval_ms(),
            final(self).spec_airplay_schedule().spec_background_interval_ms() == old(
                self,
            ).spec_airplay_schedule().spec_background_interval_ms(),
            final(self).spec_spotify_schedule().spec_foreground_interval_ms() == old(
                self,
            ).spec_spotify_schedule().spec_foreground_interval_ms(),
            final(self).spec_spotify_schedule().spec_background_interval_ms() == old(
                self,
            ).spec_spotify_schedule().spec_background_interval_ms(),
    {
        let delta_ms = self.delta.update(now_ms);
        let poll_airplay = self.airplay_schedule.poll_due(now_ms, airplay_foreground);
        let poll_spotify = self.spotify_schedule.poll_due(now_ms, spotify_foreground);
        TickPlan { delta_ms, poll_airplay, poll_spotify }
    }

    /// The frame budget in force, in milliseconds per frame.
    pub fn frame_interval_ms(&self, foregrounded: bool) -> (r: u64)
        requires
            self.wf(),
        ensures
            foregrounded ==> r == 1000 as int / self.spec_fps() as int,
            !foregrounded ==> r == 1000 as int / self.spec_background_fps() as int,
    {
        if foregrounded {
            (1000 / self.fps) as u64
        } else {
            (1000 / self.background_fps) as u64
        }
    }

    /// The next frame boundary: the caller yields control (sleeps) until
    /// this deadline rather than busy-spinning.
    pub fn next_deadline_ms(&self, now_ms: u64, foregrounded: bool) -> (r: u64)
        requires
            self.wf(),
        ensures
            ({
                let interval = if foregrounded {
                    1000 as int / self.spec_fps() as int
                } else {
                    1000 as int / self.spec_background_fps() as int
                };
                r == if now_ms + interval <= u64::MAX {
                    now_ms + interval
                } else {
                    u64::MAX as int
                }
            }),
    {
        let interval = self.frame_interval_ms(foregrounded);
        if now_ms <= u64::MAX - interval {
            now_ms + interval
        } else {
            u64::MAX
        }
    }
}

} // verus!
