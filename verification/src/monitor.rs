//! Session monitoring: stop-reason classification, session files, file
//! watching and process tracking.

pub mod classifier;
pub mod detection;
pub mod engine;
pub mod pattern;
pub mod process;
pub mod session;
pub mod sessions;
pub mod watcher;
