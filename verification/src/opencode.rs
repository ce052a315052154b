//! Supervising an `opencode serve` process.

pub mod process;
pub mod client;
