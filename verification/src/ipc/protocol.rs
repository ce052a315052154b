//! Control socket commands and replies.

use vstd::prelude::*;

use crate::daemon::state::{DaemonState, DaemonStatus};
use crate::monitor::detection::DetectionResult;
use crate::config::schema::Config;
use crate::text::{chars_eq_str, to_upper, trim, trim_str, upper, string_from_chars};

verus! {

/// Commands a client can send.
#[derive(Debug, Clone, Copy, PartialEq, Eq, Structural)]
pub enum IpcCommand {
    Status,
    Pause,
    Resume,
    NewSession,
    Reload,
}

/// The command a line names: its text, trimmed and upper-cased (ASCII).
pub open spec fn command_of(line: Seq<char>) -> Option<IpcCommand> {
    let t = upper(trim(line));
    if t == "STATUS"@ {
        Some(IpcCommand::Status)
    } else if t == "PAUSE"@ {
        Some(IpcCommand::Pause)
    } else if t == "RESUME"@ {
        Some(IpcCommand::Resume)
    } else if t == "NEW_SESSION"@ || t == "NEW-SESSION"@ {
        Some(IpcCommand::NewSession)
    } else if t == "RELOAD"@ {
        Some(IpcCommand::Reload)
    } else {
        None
    }
}

impl IpcCommand {
    /// Parses a command line.
    pub fn parse(line: &str) -> (r: Option<IpcCommand>)
        ensures
            r == command_of(line@),
    {
        let t = trim_str(line);
        let u = to_upper(t.as_slice());
        let c = u.as_slice();
        if chars_eq_str(c, "STATUS") {
            Some(IpcCommand::Status)
        } else if chars_eq_str(c, "PAUSE") {
            Some(IpcCommand::Pause)
        } else if chars_eq_str(c, "RESUME") {
            Some(IpcCommand::Resume)
        } else if chars_eq_str(c, "NEW_SESSION") || chars_eq_str(c, "NEW-SESSION") {
            Some(IpcCommand::NewSession)
        } else if chars_eq_str(c, "RELOAD") {
            Some(IpcCommand::Reload)
        } else {
            None
        }
    }
}

/// A reply to a client.
#[derive(Debug)]
pub enum IpcResponse {
    Success,
    Error { message: String },
    Status(DaemonStatus),
}

/// The reply line of a non-status reply: `OK` or `ERR: ` and the message,
/// with a newline.
pub fn reply_line(r: &IpcResponse) -> (s: Option<String>)
    ensures
        match *r {
            IpcResponse::Success => s matches Some(t) && t@ == "OK\n"@,
            IpcResponse::Error { message } => s matches Some(t) && t@ == "ERR: "@ + message@ + "\n"@,
            IpcResponse::Status(_) => s is None,
        },
{
    match r {
        IpcResponse::Success => Some("OK\n".to_string()),
        IpcResponse::Error { message } => {
            let mut t = "ERR: ".to_string();
            t.append(message.as_str());
            t.append("\n");
            Some(t)
        },
        IpcResponse::Status(_) => None,
    }
}

/// The reply to a line that names no command.
pub fn unknown_command(line: &str) -> (r: IpcResponse)
    ensures
        r matches IpcResponse::Error { message } && message@ == "Unknown command: "@ + trim(line@),
{
    let t = trim_str(line);
    let mut m = "Unknown command: ".to_string();
    let ts = string_from_chars(t.as_slice());
    m.append(ts.as_str());
    IpcResponse::Error { message: m }
}

fn from_result(r: Result<(), String>) -> (out: IpcResponse)
    ensures
        match r {
            Ok(_) => out is Success,
            Err(e) => out matches IpcResponse::Error { message } && message == e,
        },
{
    match r {
        Ok(()) => IpcResponse::Success,
        Err(message) => IpcResponse::Error { message },
    }
}

/// Carries out a command on the daemon's state. A reload uses `reload`, the
/// configuration as loaded again (or why it could not be), and `detected`
/// for auto-detection.
pub fn handle_command(cmd: IpcCommand, state: &mut DaemonState, reload: Result<Config, String>,
    detected: &DetectionResult) -> (r: IpcResponse)
    ensures
        cmd is Status ==> r is Status && *final(state) == *old(state),
        cmd is Pause ==> match r {
            IpcResponse::Success => !old(state).paused_spec() && final(state).paused_spec(),
            IpcResponse::Error { message } => old(state).paused_spec() && message@ == "Daemon already paused"@,
            IpcResponse::Status(_) => false,
        },
        cmd is Resume ==> match r {
            IpcResponse::Success => old(state).paused_spec() && !final(state).paused_spec(),
            IpcResponse::Error { message } => !old(state).paused_spec() && message@ == "Daemon is not paused"@,
            IpcResponse::Status(_) => false,
        },
        cmd is Pause ==> final(state).paused_spec(),
        cmd is Resume ==> !final(state).paused_spec(),
        cmd is NewSession ==> r is Success
            && final(state).sessions_spec() == old(state).sessions_spec().wrapping_add(1),
        cmd is Reload ==> match reload {
            Err(e) => r matches IpcResponse::Error { message } && message == e
                && final(state).config_spec() == old(state).config_spec(),
            Ok(_) => !(r is Status),
        },
{
    match cmd {
        IpcCommand::Status => IpcResponse::Status(state.get_status()),
        IpcCommand::Pause => from_result(state.pause()),
        IpcCommand::Resume => from_result(state.resume()),
        IpcCommand::NewSession => from_result(state.new_session()),
        IpcCommand::Reload => from_result(state.reload_config(reload, detected)),
    }
}

} // verus!
