//! Timing: delta time, frame-rate accounting, and poll scheduling.
//!
//! All times are milliseconds read from a monotonic clock by the
//! surrounding application and handed in as plain values.

use vstd::prelude::*;

verus! {

/// Delta-time calculator. The first tick yields a delta of zero; every
/// later tick yields the wall-clock time elapsed since the previous one,
/// so a tick that overruns its frame budget simply produces a larger
/// delta — no catch-up frames are synthesized.
pub struct DeltaTime {
    last_frame_ms: Option<u64>,
}

/// The delta one tick at `now_ms` yields, given the previous tick time.
pub open spec fn spec_delta(last: Option<u64>, now_ms: u64) -> u64 {
    match last {
        None => 0,
        Some(l) => if now_ms >= l {
            (now_ms - l) as u64
        } else {
            0
        },
    }
}

impl DeltaTime {
    /// The previous tick's timestamp, `None` before the first tick.
    pub closed spec fn spec_last_frame_ms(&self) -> Option<u64> {
        self.last_frame_ms
    }

    /// A calculator that has not yet seen a tick.
    pub fn new() -> (d: DeltaTime)
        ensures
            d.spec_last_frame_ms() is None,
    {
        DeltaTime { last_frame_ms: None }
    }

    /// Milliseconds elapsed since the previous call; zero on the first.
    pub fn update(&mut self, now_ms: u64) -> (dt: u64)
        ensures
            dt == spec_delta(old(self).spec_last_frame_ms(), now_ms),
            final(self).spec_last_frame_ms() == Some(now_ms),
    {
        let dt = match self.last_frame_ms {
            None => 0,
            Some(l) => if now_ms >= l {
                now_ms - l
            } else {
                0
            },
        };
        self.last_frame_ms = Some(now_ms);
        dt
    }
}

/// Frames-per-second counter: counts frames and, once at least a second
/// of wall time has passed, publishes the rate over that window in
/// milli-frames-per-second (1000 × frames / seconds).
pub struct FpsCounter {
    frame_count: u64,
    window_start_ms: Option<u64>,
    current_fps_milli: u64,
}

/// The published rate for `frames` frames over `elapsed_ms` milliseconds,
/// in milli-frames-per-second.
pub open spec fn spec_fps_milli(frames: u64, elapsed_ms: u64) -> u64
    recommends
        elapsed_ms > 0,
{
    if elapsed_ms == 0 {
        0
    } else {
        let v = (frames as int) * 1_000_000 / (elapsed_ms as int);
        if v > u64::MAX {
            u64::MAX
        } else {
            v as u64
        }
    }
}

impl FpsCounter {
    /// Frames counted in the current window.
    pub closed spec fn spec_frame_count(&self) -> u64 {
        self.frame_count
    }

    /// Start of the current measurement window; `None` before any frame.
    pub closed spec fn spec_window_start_ms(&self) -> Option<u64> {
        self.window_start_ms
    }

    /// The last published rate, in milli-frames-per-second.
    pub closed spec fn spec_fps(&self) -> u64 {
        self.current_fps_milli
    }

    /// A counter with no frames seen and a rate of zero.
    pub fn new() -> (c: FpsCounter)
        ensures
            c.spec_frame_count() == 0,
            c.spec_window_start_ms() is None,
            c.spec_fps() == 0,
    {
        FpsCounter { frame_count: 0, window_start_ms: None, current_fps_milli: 0 }
    }

    /// Counts one frame. Once the window spans at least one second, the
    /// rate over it is published and a new window starts at `now_ms`.
    pub fn update(&mut self, now_ms: u64)
        ensures
            ({
                let started = match old(self).spec_window_start_ms() {
                    None => now_ms,
                    Some(w) => w,
                };
                let frames: u64 = if old(self).spec_frame_count() < u64::MAX {
                    (old(self).spec_frame_count() + 1) as u64
                } else {
                    u64::MAX
                };
                let elapsed = spec_delta(Some(started), now_ms);
                if elapsed >= 1000 {
                    &&& final(self).spec_fps() == spec_fps_milli(frames, elapsed)
                    &&& final(self).spec_frame_count() == 0
                    &&& final(self).spec_window_start_ms() == Some(now_ms)
                } else {
                    &&& final(self).spec_fps() == old(self).spec_fps()
                    &&& final(self).spec_frame_count() == frames
                    &&& final(self).spec_window_start_ms() == Some(started)
                }
            }),
    {
        let started = match self.window_start_ms {
            None => now_ms,
            Some(w) => w,
        };
        self.window_start_ms = Some(started);
        if self.frame_count < u64::MAX {
            self.frame_count = self.frame_count + 1;
        }
        let elapsed = if now_ms >= started {
            now_ms - started
        } else {
            0
        };
        if elapsed >= 1000 {
            let wide: u128 = (self.frame_count as u128) * 1_000_000u128 / (elapsed as u128);
            self.current_fps_milli = if wide > u64::MAX as u128 {
                u64::MAX
            } else {
                wide as u64
            };
            self.frame_count = 0;
            self.window_start_ms = Some(now_ms);
        }
    }

    /// The last published rate, in milli-frames-per-second.
    pub fn fps(&self) -> (r: u64)
        ensures
            r == self.spec_fps(),
    {
        self.current_fps_milli
    }
}

/// Differential-rate poll schedule for one service: a short foreground
/// interval while the service's content is on screen, a long background
/// interval otherwise. This bounds wasted I/O on content nobody sees.
pub struct PollSchedule {
    foreground_interval_ms: u64,
    background_interval_ms: u64,
    last_poll_ms: Option<u64>,
}

impl PollSchedule {
    /// Interval while the content is foregrounded.
    pub closed spec fn spec_foreground_interval_ms(&self) -> u64 {
        self.foreground_interval_ms
    }

    /// Interval while the content is in the background.
    pub closed spec fn spec_background_interval_ms(&self) -> u64 {
        self.background_interval_ms
    }

    /// When the service was last polled, `None` before the first poll.
    pub closed spec fn spec_last_poll_ms(&self) -> Option<u64> {
        self.last_poll_ms
    }

    /// The interval currently in force.
    pub open spec fn spec_current_interval(&self, foreground: bool) -> u64 {
        if foreground {
            self.spec_foreground_interval_ms()
        } else {
            self.spec_background_interval_ms()
        }
    }

    /// A poll is due when none happened yet, or when the interval in
    /// force has elapsed since the last one.
    pub open spec fn spec_is_due(&self, now_ms: u64, foreground: bool) -> bool {
        match self.spec_last_poll_ms() {
            None => true,
            Some(l) => now_ms >= l && now_ms - l >= self.spec_current_interval(foreground),
        }
    }

    /// A schedule with the two configured intervals and no poll issued yet.
    pub fn new(foreground_interval_ms: u64, background_interval_ms: u64) -> (s: PollSchedule)
        ensures
            s.spec_foreground_interval_ms() == foreground_interval_ms,
            s.spec_background_interval_ms() == background_interval_ms,
            s.spec_last_poll_ms() is None,
    {
        PollSchedule { foreground_interval_ms, background_interval_ms, last_poll_ms: None }
    }

    /// The interval currently in force.
    pub fn current_interval(&self, foreground: bool) -> (r: u64)
        ensures
            r == self.spec_current_interval(foreground),
    {
        if foreground {
            self.foreground_interval_ms
        } else {
            self.background_interval_ms
        }
    }

    /// Whether a poll is due at `now_ms`.
    pub fn is_due(&self, now_ms: u64, foreground: bool) -> (r: bool)
        ensures
            r == self.spec_is_due(now_ms, foreground),
    {
        match self.last_poll_ms {
            None => true,
            Some(l) => now_ms >= l && now_ms - l >= self.current_interval(foreground),
        }
    }

    /// Issues a poll if one is due and records it; a call before the
    /// interval in force has elapsed changes nothing, so no redundant
    /// I/O is ever requested.
    pub fn poll_due(&mut self, now_ms: u64, foreground: bool) -> (due: bool)
        ensures
            due == old(self).spec_is_due(now_ms, foreground),
            due ==> final(self).spec_last_poll_ms() == Some(now_ms),
            !due ==> *final(self) == *old(self),
            final(self).spec_foreground_interval_ms() == old(self).spec_foreground_interval_ms(),
            final(self).spec_background_interval_ms() == old(self).spec_background_interval_ms(),
    {
        let due = self.is_due(now_ms, foreground);
        if due {
            self.last_poll_ms = Some(now_ms);
        }
        due
    }
}

} // verus!
