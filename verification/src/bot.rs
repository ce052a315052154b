//! Chat bot commands from Discord and Slack.

pub mod auth;
pub mod commands;
pub mod signature;
pub mod webhook;
pub mod executor;
