//! Runtime configuration consumed by the orchestration core.
//!
//! The core only requires a typed structure with these fields; reading and
//! parsing a configuration file happens outside the library, which then
//! receives a ready `Config` value. Durations are plain milliseconds.

use vstd::prelude::*;
use crate::views::ViewId;

verus! {

/// Display pacing configuration.
pub struct DisplayConfig {
    /// Target frames per second while a view is actively rendering.
    pub fps: u32,
    /// Whether the window covers the whole screen.
    pub fullscreen: bool,
}

/// AirPlay mirroring detector configuration.
pub struct AirPlayConfig {
    /// Poll interval for the state file while its content is on screen.
    pub poll_interval_ms: u64,
    /// Poll interval while the mirrored content is in the background.
    pub background_poll_interval_ms: u64,
    /// Path of the plain-text state file, supplied to the I/O layer.
    pub state_file: String,
    /// Frame rate while the display is conceptually idle (mirrored away).
    pub background_fps: u32,
}

/// Spotify playback poller configuration.
pub struct SpotifyConfig {
    /// Poll interval while the now-playing content is foregrounded.
    pub poll_interval_ms: u64,
    /// Poll interval while the now-playing content is in the background.
    pub background_poll_interval_ms: u64,
    pub client_id: String,
    pub client_secret: String,
    pub redirect_uri: String,
    pub token_file: String,
}

/// View selection configuration.
pub struct ViewsConfig {
    /// View shown when no selection predicate matches.
    pub default_view: ViewId,
    /// Duration of a view transition, in milliseconds.
    pub transition_duration_ms: u64,
}

/// Logging configuration, carried for the surrounding application.
pub struct LoggingConfig {
    pub level: String,
}

/// Asset cache configuration.
pub struct AssetsConfig {
    /// Directory that the loader resolves keys against.
    pub cache_dir: String,
    /// Byte budget of the asset cache, in mebibytes.
    pub max_cache_size_mb: u64,
}

/// Whole runtime configuration.
pub struct Config {
    pub display: DisplayConfig,
    pub airplay: AirPlayConfig,
    pub spotify: SpotifyConfig,
    pub views: ViewsConfig,
    pub logging: LoggingConfig,
    pub assets: AssetsConfig,
}

impl Config {
    /// A configuration the scheduler can run on: frame pacing needs a
    /// non-zero frame rate in both display states.
    pub open spec fn wf(&self) -> bool {
        &&& self.display.fps >= 1
        &&& self.airplay.background_fps >= 1
    }
}

} // verus!
