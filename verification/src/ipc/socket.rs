//! The server side of the control socket: what a connection is answered.

use vstd::prelude::*;

use crate::config::schema::Config;
use crate::daemon::state::DaemonState;
use crate::ipc::protocol::{command_of, handle_command, unknown_command, IpcCommand, IpcResponse};
use crate::monitor::detection::DetectionResult;
use crate::text::trim;

verus! {

/// Why the control socket failed.
#[derive(Debug)]
pub enum IpcError {
    /// An I/O error, with its message.
    Io(String),
    /// The socket is bound already.
    AlreadyBound,
    /// The socket has not been bound.
    NotBound,
}

/// The answer to a command line read from a connection: the command carried
/// out on the daemon's state, or an error naming the line when it names no
/// command. A reload uses `reload` and `detected` (see [`handle_command`]).
pub fn respond_to_line(line: &str, state: &mut DaemonState, reload: Result<Config, String>,
    detected: &DetectionResult) -> (r: IpcResponse)
    ensures
        command_of(line@) is None ==> (r matches IpcResponse::Error { message }
            && message@ == "Unknown command: "@ + trim(line@) && *final(state) == *old(state)),
        command_of(line@) matches Some(IpcCommand::Status) ==> r is Status && *final(state) == *old(state),
        command_of(line@) matches Some(IpcCommand::Pause) ==> final(state).paused_spec(),
        command_of(line@) matches Some(IpcCommand::Resume) ==> !final(state).paused_spec(),
{
    match IpcCommand::parse(line) {
        Some(cmd) => handle_command(cmd, state, reload, detected),
        None => unknown_command(line),
    }
}

/// The answer when no command line arrived in time.
pub fn timeout_response() -> (r: IpcResponse)
    ensures
        r matches IpcResponse::Error { message } && message@ == "Connection timeout"@,
{
    IpcResponse::Error { message: "Connection timeout".to_string() }
}

} // verus!
