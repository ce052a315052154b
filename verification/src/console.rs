//! What the command line prints for the daemon's replies.

use vstd::prelude::*;

use crate::bot::executor::{duration_text, format_duration};
use crate::daemon::state::DaemonStatus;
use crate::ipc::client::IpcClientError;
use crate::text::{chars_of, dec, eq_ignore_ascii_case, eq_ignore_case, u64_to_string};

verus! {

/// What a command ends with: a line on standard output (success), a line
/// on standard error and exit status 1, or an error to report.
#[derive(Debug)]
pub enum CommandOutcome {
    Printed(String),
    Exit { message: String, code: i32 },
    Failed(IpcClientError),
}

pub open spec fn exit_with(o: CommandOutcome, text: Seq<char>) -> bool {
    o matches CommandOutcome::Exit { message, code } && message@ == text && code == 1
}

/// The outcome of asking the daemon to pause: done, already paused (also
/// a success), no daemon or no answer (exit status 1), or another error.
pub fn pause_outcome(r: Result<(), IpcClientError>) -> (o: CommandOutcome)
    ensures
        match r {
            Ok(_) => o matches CommandOutcome::Printed(t) && t@ == "Monitoring paused"@,
            Err(IpcClientError::NotRunning) => exit_with(o, "Daemon not running"@),
            Err(IpcClientError::Timeout) => exit_with(o, "Daemon unresponsive"@),
            Err(IpcClientError::Protocol(m)) => if eq_ignore_case(m@, "Daemon already paused"@) {
                o matches CommandOutcome::Printed(t) && t@ == "Already paused"@
            } else {
                o matches CommandOutcome::Failed(IpcClientError::Protocol(n)) && n == m
            },
            Err(IpcClientError::Io(m)) => o matches CommandOutcome::Failed(IpcClientError::Io(n)) && n == m,
        },
{
    match r {
        Ok(()) => CommandOutcome::Printed("Monitoring paused".to_string()),
        Err(IpcClientError::NotRunning) => CommandOutcome::Exit { message: "Daemon not running".to_string(), code: 1 },
        Err(IpcClientError::Timeout) => CommandOutcome::Exit { message: "Daemon unresponsive".to_string(), code: 1 },
        Err(IpcClientError::Protocol(message)) => {
            let a = chars_of(message.as_str());
            let b = chars_of("Daemon already paused");
            if eq_ignore_ascii_case(a.as_slice(), b.as_slice()) {
                CommandOutcome::Printed("Already paused".to_string())
            } else {
                CommandOutcome::Failed(IpcClientError::Protocol(message))
            }
        },
        Err(e) => CommandOutcome::Failed(e),
    }
}

/// The outcome of asking for the status when the daemon did not answer
/// with one: no daemon or no answer (exit status 1), or another error.
pub fn status_failure(e: IpcClientError) -> (o: CommandOutcome)
    ensures
        match e {
            IpcClientError::NotRunning => exit_with(o, "Daemon not running"@),
            IpcClientError::Timeout => exit_with(o, "Daemon unresponsive"@),
            _ => o is Failed,
        },
{
    match e {
        IpcClientError::NotRunning => CommandOutcome::Exit { message: "Daemon not running".to_string(), code: 1 },
        IpcClientError::Timeout => CommandOutcome::Exit { message: "Daemon unresponsive".to_string(), code: 1 },
        other => CommandOutcome::Failed(other),
    }
}

pub open spec fn lines_of(v: Seq<String>) -> Seq<Seq<char>> {
    v.map_values(|s: String| s@)
}

/// The status lines: that the daemon runs, its PID when known, its state,
/// uptime, current session, saves, resumes and the time saved (as text).
pub open spec fn status_text(status: DaemonStatus, pid: Option<u32>, time_saved: Seq<char>) -> Seq<Seq<char>> {
    seq!["palingenesis daemon: running"@]
    + match pid { Some(p) => seq!["PID: "@ + dec(p as nat)], None => Seq::empty() }
    + seq![
        "State: "@ + status.state@,
        "Uptime: "@ + duration_text(status.uptime_secs as nat),
        "Current session: "@ + match status.current_session { Some(s) => s@, None => "none"@ },
        "Saves: "@ + dec(status.saves_count as nat),
        "Total resumes: "@ + dec(status.total_resumes as nat),
        "Time saved: "@ + time_saved,
    ]
}

fn labelled(label: &str, value: &str) -> (r: String)
    ensures
        r@ == label@ + value@,
{
    let mut t = label.to_string();
    t.append(value);
    t
}

/// The lines `status` prints for a running daemon.
pub fn status_lines(status: &DaemonStatus, pid: Option<u32>, time_saved: &str) -> (r: Vec<String>)
    ensures
        lines_of(r@) == status_text(*status, pid, time_saved@),
{
    let mut out: Vec<String> = Vec::new();
    out.push("palingenesis daemon: running".to_string());
    match pid {
        Some(p) => {
            let n = u64_to_string(p as u64);
            out.push(labelled("PID: ", n.as_str()));
        },
        None => {},
    }
    out.push(labelled("State: ", status.state.as_str()));
    let up = format_duration(status.uptime_secs);
    out.push(labelled("Uptime: ", up.as_str()));
    match &status.current_session {
        Some(s) => out.push(labelled("Current session: ", s.as_str())),
        None => out.push(labelled("Current session: ", "none")),
    }
    let saves = u64_to_string(status.saves_count);
    out.push(labelled("Saves: ", saves.as_str()));
    let resumes = u64_to_string(status.total_resumes);
    out.push(labelled("Total resumes: ", resumes.as_str()));
    out.push(labelled("Time saved: ", time_saved));
    proof {
        assert(lines_of(out@) =~= status_text(*status, pid, time_saved@));
    }
    out
}

/// What stopping the daemon does next, after `polls` checks that it still
/// runs: wait and check again (up to fifty times), else kill it.
#[derive(Debug, Clone, Copy, PartialEq, Eq, Structural)]
pub enum StopStep {
    /// It has stopped.
    Stopped,
    /// Wait a tenth of a second and check again.
    Wait,
    /// Send `SIGKILL`.
    Kill,
}

/// The next step of stopping the daemon.
pub fn stop_step(polls: u32, running: bool) -> (r: StopStep)
    ensures
        !running ==> r == StopStep::Stopped,
        running && polls < 50 ==> r == StopStep::Wait,
        running && polls >= 50 ==> r == StopStep::Kill,
{
    if !running {
        StopStep::Stopped
    } else if polls < 50 {
        StopStep::Wait
    } else {
        StopStep::Kill
    }
}

} // verus!
