//! Now-playing view state: the track currently shown to the user.
//!
//! Drawing the album art, text and progress bar is the surrounding
//! application's business; the view state here is what that drawing
//! reads. Between Spotify polls the view extrapolates playback progress
//! by the frame delta, clamped into the track's duration, so the progress
//! bar moves smoothly without ever overshooting the track's end.

use vstd::prelude::*;
use crate::spotify::SpotifyTrack;

verus! {

/// Displayed playback progress after extrapolating `dt_ms` from a
/// snapshot: advanced while playing, frozen while paused, and never past
/// the duration.
pub open spec fn spec_display_progress(t: SpotifyTrack, dt_ms: u64) -> u32 {
    if !t.is_playing {
        t.progress_ms
    } else if t.progress_ms + dt_ms > t.duration_ms {
        t.duration_ms
    } else {
        (t.progress_ms + dt_ms) as u32
    }
}

/// State of the now-playing view.
pub struct NowPlayingView {
    active: bool,
    has_track: bool,
    progress_ms: u32,
    duration_ms: u32,
    playing: bool,
}

impl NowPlayingView {
    /// Whether the view is currently entered.
    pub closed spec fn spec_active(&self) -> bool {
        self.active
    }

    /// Whether a track is currently displayed.
    pub closed spec fn spec_has_track(&self) -> bool {
        self.has_track
    }

    /// Displayed playback position, in milliseconds.
    pub closed spec fn spec_progress_ms(&self) -> u32 {
        self.progress_ms
    }

    /// Displayed track duration, in milliseconds.
    pub closed spec fn spec_duration_ms(&self) -> u32 {
        self.duration_ms
    }

    /// Whether the displayed track is playing.
    pub closed spec fn spec_playing(&self) -> bool {
        self.playing
    }

    /// The displayed position never passes the end of the track.
    pub open spec fn wf(&self) -> bool {
        self.spec_progress_ms() <= self.spec_duration_ms()
    }

    /// A fresh, inactive view displaying nothing.
    pub fn new() -> (v: NowPlayingView)
        ensures
            v.wf(),
            !v.spec_active(),
            !v.spec_has_track(),
    {
        NowPlayingView { active: false, has_track: false, progress_ms: 0, duration_ms: 0, playing: false }
    }

    /// Lifecycle: the view becomes active with nothing displayed yet; the
    /// first `update` adopts the current snapshot.
    pub fn on_enter(&mut self)
        ensures
            final(self).wf(),
            final(self).spec_active(),
            !final(self).spec_has_track(),
    {
        self.active = true;
        self.has_track = false;
        self.progress_ms = 0;
        self.duration_ms = 0;
        self.playing = false;
    }

    /// Lifecycle: the view is deactivated and drops its display state.
    pub fn on_exit(&mut self)
        ensures
            final(self).wf(),
            !final(self).spec_active(),
            !final(self).spec_has_track(),
    {
        self.active = false;
        self.has_track = false;
        self.progress_ms = 0;
        self.duration_ms = 0;
        self.playing = false;
    }

    /// One frame's update: adopts the current Spotify snapshot and
    /// extrapolates its progress by the frame delta, clamped into the
    /// track's duration. With no track in the snapshot, nothing is
    /// displayed.
    pub fn update(&mut self, dt_ms: u64, track: &Option<SpotifyTrack>)
        requires
            match track {
                Some(t) => t.wf(),
                None => true,
            },
        ensures
            final(self).wf(),
            final(self).spec_active() == old(self).spec_active(),
            match track {
                Some(t) => {
                    &&& final(self).spec_has_track()
                    &&& final(self).spec_duration_ms() == t.duration_ms
                    &&& final(self).spec_playing() == t.is_playing
                    &&& final(self).spec_progress_ms() == spec_display_progress(*t, dt_ms)
                },
                None => !final(self).spec_has_track(),
            },
    {
        match track {
            Some(t) => {
                self.has_track = true;
                self.duration_ms = t.duration_ms;
                self.playing = t.is_playing;
                if !t.is_playing {
                    self.progress_ms = t.progress_ms;
                } else {
                    let advanced: u64 = if dt_ms > u64::MAX - t.progress_ms as u64 {
                        u64::MAX
                    } else {
                        t.progress_ms as u64 + dt_ms
                    };
                    self.progress_ms = if advanced > t.duration_ms as u64 {
                        t.duration_ms
                    } else {
                        advanced as u32
                    };
                }
            },
            None => {
                self.has_track = false;
                self.progress_ms = 0;
                self.duration_ms = 0;
                self.playing = false;
            },
        }
    }

    /// Displayed playback position, for the renderer.
    pub fn progress_ms(&self) -> (r: u32)
        ensures
            r == self.spec_progress_ms(),
    {
        self.progress_ms
    }

    /// Displayed track duration, for the renderer.
    pub fn duration_ms(&self) -> (r: u32)
        ensures
            r == self.spec_duration_ms(),
    {
        self.duration_ms
    }

    /// Whether a track is currently displayed.
    pub fn has_track(&self) -> (r: bool)
        ensures
            r == self.spec_has_track(),
    {
        self.has_track
    }
}

} // verus!
