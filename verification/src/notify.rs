//! Notification events and how each channel renders them.

pub mod dispatch;
pub mod events;
pub mod format;
