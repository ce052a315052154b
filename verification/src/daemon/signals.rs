//! How the daemon reacts to operating-system signals.

use vstd::prelude::*;

verus! {

/// What a signal asks of the daemon.
#[derive(Debug, Clone, Copy, PartialEq, Eq, Structural)]
pub enum DaemonSignal {
    Shutdown,
    Reload,
}

/// What the signal listener observed.
#[derive(Debug, Clone, Copy, PartialEq, Eq, Structural)]
pub enum SignalEvent {
    /// `SIGTERM` arrived.
    Terminate,
    /// `SIGINT` arrived.
    Interrupt,
    /// `SIGHUP` arrived.
    Hangup,
    /// Shutdown was requested elsewhere.
    Cancelled,
    /// A signal handler could not be installed.
    RegistrationFailed,
}

/// What the listener does next: the request to send, whether to cancel the
/// daemon's work, and whether to stop listening.
#[derive(Debug, Clone, Copy, PartialEq, Eq, Structural)]
pub struct SignalStep {
    pub send: Option<DaemonSignal>,
    pub cancel: bool,
    pub stop: bool,
}

/// The listener's reaction to an event: termination and interruption ask
/// for shutdown, cancel and stop; a hangup asks for a reload and listening
/// goes on; a cancellation stops listening; a handler that cannot be
/// installed cancels and stops.
pub fn next_signal_step(event: SignalEvent) -> (r: SignalStep)
    ensures
        r.send == match event {
            SignalEvent::Terminate | SignalEvent::Interrupt => Some(DaemonSignal::Shutdown),
            SignalEvent::Hangup => Some(DaemonSignal::Reload),
            _ => None::<DaemonSignal>,
        },
        r.cancel == (event is Terminate || event is Interrupt || event is RegistrationFailed),
        r.stop == !(event is Hangup),
{
    match event {
        SignalEvent::Terminate | SignalEvent::Interrupt =>
            SignalStep { send: Some(DaemonSignal::Shutdown), cancel: true, stop: true },
        SignalEvent::Hangup => SignalStep { send: Some(DaemonSignal::Reload), cancel: false, stop: false },
        SignalEvent::Cancelled => SignalStep { send: None, cancel: false, stop: true },
        SignalEvent::RegistrationFailed => SignalStep { send: None, cancel: true, stop: true },
    }
}

} // verus!
