//! Device state synchronizer of a desktop status bar.
//!
//! The crate keeps one snapshot of battery, network and audio state, folds the
//! events of the hardware monitors into it, and turns user intents into
//! commands for the audio subsystem and into power actions for the host.

pub mod utils;
pub mod app;
pub mod modules;
