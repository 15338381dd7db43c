//! Verified orchestration core for an ambient information display.
//!
//! The library owns the logic that drives a single-window display cycling
//! among full-screen views: differential-rate service polling, the view
//! state machine with its lifecycle transitions, a byte-budgeted LRU asset
//! cache, and the frame scheduler. File and network I/O, GPU rendering and
//! configuration parsing live outside the library and hand it plain values.

pub mod airplay;
pub mod assets;
pub mod config;
pub mod context;
pub mod now_playing;
pub mod scheduler;
pub mod spotify;
pub mod timing;
pub mod views;
