//! Errors that stop the daemon.

use vstd::prelude::*;

use crate::daemon::pid::PidError;
use crate::ipc::socket::IpcError;

verus! {

/// Why the daemon could not run.
#[derive(Debug)]
pub enum DaemonError {
    /// The PID file could not be handled.
    Pid(PidError),
    /// The control socket failed.
    Ipc(IpcError),
}

} // verus!
