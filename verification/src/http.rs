//! What the HTTP control interface answers, apart from the transport.

pub mod health;
pub mod status;
pub mod control;
pub mod server;
