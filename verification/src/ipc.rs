//! The line protocol of the daemon's control socket.

pub mod protocol;
pub mod client;
pub mod socket;
