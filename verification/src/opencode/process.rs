//! Recognising the `opencode serve` process and telling, poll after poll,
//! whether it started, stopped or crashed.

use vstd::prelude::*;

use crate::config::schema::OpenCodeConfig;
use crate::monitor::process::{command_name_matches, info_view, names_opencode, pids, texts, ProcessInfo};
use crate::text::{chars_of, eq_ignore_ascii_case, eq_ignore_case};

verus! {

/// The supervised process.
#[derive(Debug)]
pub struct OpenCodeProcess {
    pub pid: u32,
    pub command_line: Vec<String>,
    pub start_time: Option<u64>,
    pub working_dir: Option<String>,
}

impl OpenCodeProcess {
    /// The same process, as the supervisor reports it.
    pub fn from_info(p: ProcessInfo) -> (r: Self)
        ensures
            r.pid == p.pid,
            r.command_line@ == p.command_line@,
            r.start_time == p.start_time,
            r.working_dir == p.working_dir,
    {
        OpenCodeProcess {
            pid: p.pid,
            command_line: p.command_line,
            start_time: p.start_time,
            working_dir: p.working_dir,
        }
    }
}

/// Why the process stopped.
#[derive(Debug, Clone, Copy, PartialEq, Eq, Structural)]
pub enum OpenCodeExitReason {
    NormalExit,
    Signal { signal: i32 },
    Unknown,
}

/// What the supervisor reports.
#[derive(Debug)]
pub enum OpenCodeEvent {
    OpenCodeStarted(OpenCodeProcess),
    OpenCodeStopped { process: OpenCodeProcess, reason: OpenCodeExitReason },
    OpenCodeCrashed { process: OpenCodeProcess, exit_code: i32 },
}

/// Supervisor settings.
#[derive(Debug, Clone, Copy, PartialEq, Eq)]
pub struct OpenCodeMonitor {
    /// Milliseconds between polls.
    pub poll_interval_ms: u64,
    /// Port of the health endpoint.
    pub health_port: u16,
    /// Milliseconds a health check may take.
    pub health_timeout_ms: u64,
}

impl OpenCodeMonitor {
    /// The supervisor settings of a configuration.
    pub fn new(config: &OpenCodeConfig) -> (r: Self)
        ensures
            r.poll_interval_ms == config.poll_interval_ms,
            r.health_port == config.health_port,
            r.health_timeout_ms == config.health_timeout_ms,
    {
        OpenCodeMonitor {
            poll_interval_ms: config.poll_interval_ms,
            health_port: config.health_port,
            health_timeout_ms: config.health_timeout_ms,
        }
    }
}

/// A command line runs `opencode serve`: some argument is `serve` (any
/// case) and some argument's file name mentions `opencode`.
pub open spec fn is_serve_spec(args: Seq<Seq<char>>) -> bool {
    &&& args.len() > 0
    &&& exists|i: int| 0 <= i < args.len() && eq_ignore_case(#[trigger] args[i], "serve"@)
    &&& exists|i: int| 0 <= i < args.len() && names_opencode(#[trigger] args[i])
}

/// Whether a command line runs `opencode serve`.
pub fn is_opencode_serve_command(command_line: &[String]) -> (r: bool)
    ensures
        r == is_serve_spec(texts(command_line@)),
{
    let n = command_line.len();
    if n == 0 {
        return false;
    }
    let serve = chars_of("serve");
    let mut has_serve = false;
    let mut i: usize = 0;
    while i < n && !has_serve
        invariant
            n == command_line@.len(),
            i <= n,
            serve@ == "serve"@,
            has_serve ==> exists|k: int| 0 <= k < n && eq_ignore_case(#[trigger] texts(command_line@)[k], "serve"@),
            !has_serve ==> forall|k: int| 0 <= k < i ==> !eq_ignore_case(#[trigger] texts(command_line@)[k], "serve"@),
        decreases n - i,
    {
        let c = chars_of(command_line[i].as_str());
        if eq_ignore_ascii_case(c.as_slice(), serve.as_slice()) {
            proof { assert(eq_ignore_case(texts(command_line@)[i as int], "serve"@)); }
            has_serve = true;
        }
        i = i + 1;
    }
    if !has_serve {
        return false;
    }
    let mut j: usize = 0;
    while j < n
        invariant
            n == command_line@.len(),
            j <= n,
            exists|k: int| 0 <= k < n && eq_ignore_case(#[trigger] texts(command_line@)[k], "serve"@),
            forall|k: int| 0 <= k < j ==> !names_opencode(#[trigger] texts(command_line@)[k]),
        decreases n - j,
    {
        if command_name_matches(command_line[j].as_str()) {
            proof { assert(names_opencode(texts(command_line@)[j as int])); }
            return true;
        }
        proof { assert(!names_opencode(texts(command_line@)[j as int])); }
        j = j + 1;
    }
    false
}

/// The `opencode serve` process to supervise among those listed: the one
/// with the lowest PID.
pub open spec fn chosen(ps: Seq<ProcessInfo>, i: int) -> bool {
    &&& 0 <= i < ps.len()
    &&& is_serve_spec(texts(ps[i].command_line@))
    &&& forall|j: int| 0 <= j < ps.len() && is_serve_spec(texts(ps[j].command_line@)) ==> ps[i].pid <= #[trigger] ps[j].pid
}

/// Picks the `opencode serve` process with the lowest PID, if any.
pub fn find_opencode_process(processes: &Vec<ProcessInfo>) -> (r: Option<usize>)
    ensures
        match r {
            Some(i) => chosen(processes@, i as int),
            None => forall|j: int| 0 <= j < processes@.len() ==> !is_serve_spec(
                texts(#[trigger] processes@[j].command_line@)),
        },
{
    let n = processes.len();
    let mut best: Option<usize> = None;
    let mut i: usize = 0;
    while i < n
        invariant
            n == processes@.len(),
            i <= n,
            match best {
                Some(b) => b < i && is_serve_spec(texts(processes@[b as int].command_line@))
                    && forall|j: int| 0 <= j < i && is_serve_spec(texts(processes@[j].command_line@))
                        ==> processes@[b as int].pid <= #[trigger] processes@[j].pid,
                None => forall|j: int| 0 <= j < i ==> !is_serve_spec(texts(#[trigger] processes@[j].command_line@)),
            },
        decreases n - i,
    {
        if is_opencode_serve_command(processes[i].command_line.as_slice()) {
            match best {
                Some(b) => {
                    if processes[i].pid < processes[b].pid {
                        best = Some(i);
                    }
                },
                None => {
                    best = Some(i);
                },
            }
        }
        i = i + 1;
    }
    best
}

/// The supervisor's record of a process is that process, field by field.
pub open spec fn same_process(p: OpenCodeProcess, q: ProcessInfo) -> bool {
    &&& p.pid == q.pid
    &&& p.command_line@ == q.command_line@
    &&& p.start_time == q.start_time
    &&& p.working_dir == q.working_dir
}

/// The event for a supervised process that is gone.
pub fn exit_event(process: ProcessInfo, exit_code: Option<i32>) -> (r: OpenCodeEvent)
    ensures
        match exit_code {
            Some(0i32) => r matches OpenCodeEvent::OpenCodeStopped { process: p, reason }
                && same_process(p, process) && reason == OpenCodeExitReason::NormalExit,
            Some(c) => r matches OpenCodeEvent::OpenCodeCrashed { process: p, exit_code: e }
                && same_process(p, process) && e == c,
            None => r matches OpenCodeEvent::OpenCodeStopped { process: p, reason }
                && same_process(p, process) && reason == OpenCodeExitReason::Unknown,
        },
{
    match exit_code {
        Some(0) => OpenCodeEvent::OpenCodeStopped {
            process: OpenCodeProcess::from_info(process),
            reason: OpenCodeExitReason::NormalExit,
        },
        Some(code) => OpenCodeEvent::OpenCodeCrashed { process: OpenCodeProcess::from_info(process), exit_code: code },
        None => OpenCodeEvent::OpenCodeStopped {
            process: OpenCodeProcess::from_info(process),
            reason: OpenCodeExitReason::Unknown,
        },
    }
}

/// What one poll of the supervised process calls for.
#[derive(Debug)]
pub enum OpenCodeStep {
    /// Nothing changed and nothing runs.
    Idle,
    /// The supervised process still runs: check its health.
    CheckHealth,
    /// A process appeared: report it started.
    Started(ProcessInfo),
    /// The supervised process is gone: report how it ended.
    Exited(ProcessInfo),
    /// The supervised process was replaced by another: report how the first
    /// ended, then that the second started.
    Replaced { previous: ProcessInfo, current: ProcessInfo },
}

/// Which process is supervised.
#[derive(Debug)]
pub struct OpenCodeTracker {
    watched: Option<ProcessInfo>,
}

impl OpenCodeTracker {
    pub closed spec fn watched_pid(self) -> Option<u32> {
        match self.watched {
            Some(p) => Some(p.pid),
            None => None,
        }
    }

    /// The supervised process, as plain values.
    pub closed spec fn watched_view(self) -> Option<(u32, Seq<Seq<char>>, Option<u64>, Option<Seq<char>>)> {
        match self.watched {
            Some(p) => Some(info_view(p)),
            None => None,
        }
    }

    /// Supervises nothing yet.
    pub fn new() -> (r: Self)
        ensures
            r.watched_pid() is None,
    {
        OpenCodeTracker { watched: None }
    }

    /// Takes note of the `opencode serve` process found by a poll (if any)
    /// and says what to do: a new process is supervised from now on, a
    /// vanished one is forgotten, one with another PID replaces the
    /// supervised one.
    pub fn poll(&mut self, current: Option<ProcessInfo>) -> (r: OpenCodeStep)
        ensures
            final(self).watched_pid() == match current { Some(p) => Some(p.pid), None => None },
            match (old(self).watched_pid(), current) {
                (None, None) => r is Idle,
                (None, Some(c)) => r matches OpenCodeStep::Started(p) && p == c,
                (Some(w), None) => r matches OpenCodeStep::Exited(p) && p.pid == w,
                (Some(w), Some(c)) => if w == c.pid {
                    r is CheckHealth
                } else {
                    r matches OpenCodeStep::Replaced { previous, current: now } && previous.pid == w
                        && now == c
                },
            },
            match r {
                OpenCodeStep::Exited(p) => old(self).watched_view() == Some(info_view(p)),
                OpenCodeStep::Replaced { previous, current: _ } =>
                    old(self).watched_view() == Some(info_view(previous)),
                _ => true,
            },
            match current {
                Some(c) => final(self).watched_view() == if old(self).watched_pid() == Some(c.pid) {
                    old(self).watched_view()
                } else {
                    Some(info_view(c))
                },
                None => final(self).watched_view() is None,
            },
    {
        let previous = self.watched.take();
        match (previous, current) {
            (None, None) => OpenCodeStep::Idle,
            (None, Some(c)) => {
                self.watched = Some(c.clone());
                OpenCodeStep::Started(c)
            },
            (Some(p), None) => OpenCodeStep::Exited(p),
            (Some(p), Some(c)) => {
                if p.pid == c.pid {
                    self.watched = Some(p);
                    OpenCodeStep::CheckHealth
                } else {
                    self.watched = Some(c.clone());
                    OpenCodeStep::Replaced { previous: p, current: c }
                }
            },
        }
    }
}

} // verus!
