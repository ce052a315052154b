//! Session monitoring and resumption logic for AI coding assistants.

pub mod text;
pub mod codec;
pub mod cli;
pub mod console;
pub mod config;
pub mod notify;
pub mod monitor;
pub mod bot;
pub mod daemon;
pub mod ipc;
pub mod http;
pub mod mcp;
pub mod opencode;
