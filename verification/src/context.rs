//! Shared per-frame context handed to every view operation.

use vstd::prelude::*;
use crate::config::Config;
use crate::views::ServiceState;

verus! {

/// Immutable-per-frame bundle passed read-only to every view invocation:
/// the runtime configuration and the service snapshots the frame scheduler
/// gathered at the start of the tick. It lives for the whole process run
/// and is refreshed, never replaced piecemeal, at each tick.
pub struct ViewContext {
    /// Runtime configuration.
    pub config: Config,
    /// Last-known state of the external services, applied atomically at
    /// the start of the tick that observed it.
    pub services: ServiceState,
}

impl ViewContext {
    /// A fresh context: both services read as inactive until first polled.
    pub fn new(config: Config) -> (ctx: ViewContext)
        ensures
            ctx.config == config,
            !ctx.services.airplay_active,
            !ctx.services.spotify_playing,
    {
        ViewContext { config, services: ServiceState { airplay_active: false, spotify_playing: false } }
    }

    /// Publishes the snapshots gathered for the coming tick.
    pub fn set_services(&mut self, services: ServiceState)
        ensures
            final(self).config == old(self).config,
            final(self).services == services,
    {
        self.services = services;
    }
}

} // verus!
