//! Spotify playback poller.
//!
//! OAuth, token persistence and the HTTP transport live entirely outside
//! the library: a background worker performs the actual web request and
//! delivers its outcome as a [`SpotifyPollOutcome`], which the service
//! applies atomically to its snapshot. Polling failures are transient by
//! design — the previous snapshot is retained and the failure is counted,
//! never fatal. An integration without valid credentials reports
//! `Success(None)` ("no track") rather than failing the loop.

use vstd::prelude::*;

verus! {

/// Currently playing track information.
///
/// Invariant: `progress_ms <= duration_ms`; raw values are clamped on
/// ingestion, never trusted.
#[derive(Clone, Debug)]
pub struct SpotifyTrack {
    pub title: String,
    pub artist: Vec<String>,
    pub album: String,
    pub album_art_url: String,
    pub progress_ms: u32,
    pub duration_ms: u32,
    pub is_playing: bool,
}

impl SpotifyTrack {
    /// Playback progress never exceeds the track duration.
    pub open spec fn wf(&self) -> bool {
        self.progress_ms <= self.duration_ms
    }
}

/// `t` with its progress clamped into the track's duration.
pub open spec fn spec_clamped(t: SpotifyTrack) -> SpotifyTrack {
    SpotifyTrack {
        progress_ms: if t.progress_ms > t.duration_ms {
            t.duration_ms
        } else {
            t.progress_ms
        },
        ..t
    }
}

/// Clamps a raw track's progress into its duration, establishing the
/// track invariant; all other fields are kept.
pub fn clamp_track(t: SpotifyTrack) -> (r: SpotifyTrack)
    ensures
        r == spec_clamped(t),
        r.wf(),
{
    let progress_ms = if t.progress_ms > t.duration_ms {
        t.duration_ms
    } else {
        t.progress_ms
    };
    SpotifyTrack { progress_ms, ..t }
}

/// Outcome of one background poll of the Spotify integration, delivered
/// to the service at the start of the next tick that observes it.
pub enum SpotifyPollOutcome {
    /// The poll succeeded; `None` means nothing is playing (or no valid
    /// credentials are available).
    Success(Option<SpotifyTrack>),
    /// The poll failed (network error, malformed response).
    Failure,
}

/// Spotify service: holds the last-known playback snapshot.
pub struct SpotifyService {
    track: Option<SpotifyTrack>,
    playing: bool,
    captured_at_ms: u64,
    failure_count: u64,
}

impl SpotifyService {
    /// The last successfully captured track, if any.
    pub closed spec fn spec_track(&self) -> Option<SpotifyTrack> {
        self.track
    }

    /// Whether the last successful poll reported active playback.
    pub closed spec fn spec_playing(&self) -> bool {
        self.playing
    }

    /// When the current snapshot was captured (0 before the first success).
    pub closed spec fn spec_captured_at_ms(&self) -> u64 {
        self.captured_at_ms
    }

    /// Consecutive failed polls since the last success.
    pub closed spec fn spec_failure_count(&self) -> u64 {
        self.failure_count
    }

    /// The held snapshot always satisfies the track invariant.
    pub open spec fn wf(&self) -> bool {
        match self.spec_track() {
            Some(t) => t.wf(),
            None => true,
        }
    }

    /// A fresh service with an empty snapshot: no track, not playing.
    pub fn new() -> (s: SpotifyService)
        ensures
            s.spec_track() is None,
            !s.spec_playing(),
            s.spec_captured_at_ms() == 0,
            s.spec_failure_count() == 0,
            s.wf(),
    {
        SpotifyService { track: None, playing: false, captured_at_ms: 0, failure_count: 0 }
    }

    /// The currently playing track, from the last successful poll.
    pub fn get_current_track(&self) -> (r: &Option<SpotifyTrack>)
        ensures
            r == self.spec_track(),
    {
        &self.track
    }

    /// Whether Spotify is currently playing, from the last successful poll.
    pub fn is_playing(&self) -> (r: bool)
        ensures
            r == self.spec_playing(),
    {
        self.playing
    }

    /// When the current snapshot was captured.
    pub fn captured_at_ms(&self) -> (r: u64)
        ensures
            r == self.spec_captured_at_ms(),
    {
        self.captured_at_ms
    }

    /// Consecutive failed polls since the last success, for metrics.
    pub fn failure_count(&self) -> (r: u64)
        ensures
            r == self.spec_failure_count(),
    {
        self.failure_count
    }

    /// Applies one delivered poll outcome. A success replaces the whole
    /// snapshot atomically (progress clamped into the duration) and resets
    /// the failure count; a failure retains the previous snapshot
    /// unchanged — timestamp included — and only counts the failure.
    pub fn apply_poll(&mut self, outcome: SpotifyPollOutcome, now_ms: u64)
        requires
            old(self).wf(),
        ensures
            final(self).wf(),
            match outcome {
                SpotifyPollOutcome::Success(t) => {
                    &&& final(self).spec_track() == match t {
                        Some(tr) => Some(spec_clamped(tr)),
                        None => None::<SpotifyTrack>,
                    }
                    &&& final(self).spec_playing() == match t {
                        Some(tr) => tr.is_playing,
                        None => false,
                    }
                    &&& final(self).spec_captured_at_ms() == now_ms
                    &&& final(self).spec_failure_count() == 0
                },
                SpotifyPollOutcome::Failure => {
                    &&& final(self).spec_track() == old(self).spec_track()
                    &&& final(self).spec_playing() == old(self).spec_playing()
                    &&& final(self).spec_captured_at_ms() == old(self).spec_captured_at_ms()
                    &&& final(self).spec_failure_count() == (
                    if old(self).spec_failure_count() < u64::MAX {
                        (old(self).spec_failure_count() + 1) as u64
                    } else {
                        u64::MAX
                    })
                },
            },
    {
        match outcome {
            SpotifyPollOutcome::Success(t) => {
                match t {
                    Some(tr) => {
                        self.playing = tr.is_playing;
                        self.track = Some(clamp_track(tr));
                    },
                    None => {
                        self.playing = false;
                        self.track = None;
                    },
                }
                self.captured_at_ms = now_ms;
                self.failure_count = 0;
            },
            SpotifyPollOutcome::Failure => {
                if self.failure_count < u64::MAX {
                    self.failure_count = self.failure_count + 1;
                }
            },
        }
    }
}

} // verus!
