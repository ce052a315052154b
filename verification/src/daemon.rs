//! The daemon's state and lifecycle decisions.

pub mod lifecycle;
pub mod pid;
pub mod shutdown;
pub mod signals;
pub mod state;
