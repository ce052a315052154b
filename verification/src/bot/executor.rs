//! Running bot commands against the daemon.

use vstd::prelude::*;

use crate::bot::commands::{lemma_byte_len_monotone, prefix_of_bytes, BotCommand, BotCommandField,
    BotCommandResult};
use crate::daemon::state::{texts, DaemonState, DaemonStatus};
use crate::http::control::{is_v4_uuid_text, new_session_daemon, pause_daemon, resume_daemon};
use crate::notify::events::{rfc3339_text, Timestamp};
use crate::text::{byte_len, chars_byte_len, chars_of, dec, lemma_byte_len_bound, lemma_byte_len_concat,
    opt_text, string_from_chars, u64_to_string};

verus! {

// ---------------------------------------------------------------------------
// Status
// ---------------------------------------------------------------------------

/// A duration as hours, minutes and seconds, leaving out leading zero units.
pub open spec fn duration_text(secs: nat) -> Seq<char> {
    let hours = secs / 3600;
    let minutes = (secs % 3600) / 60;
    let s = secs % 60;
    if hours > 0 {
        dec(hours) + "h "@ + dec(minutes) + "m "@ + dec(s) + "s"@
    } else if minutes > 0 {
        dec(minutes) + "m "@ + dec(s) + "s"@
    } else {
        dec(s) + "s"@
    }
}

/// Formats a duration of `seconds` seconds.
pub fn format_duration(seconds: u64) -> (r: String)
    ensures
        r@ == duration_text(seconds as nat),
{
    let hours = seconds / 3600;
    let minutes = (seconds % 3600) / 60;
    let secs = seconds % 60;
    if hours > 0 {
        let mut t = u64_to_string(hours);
        t.append("h ");
        let m = u64_to_string(minutes);
        t.append(m.as_str());
        t.append("m ");
        let s = u64_to_string(secs);
        t.append(s.as_str());
        t.append("s");
        t
    } else if minutes > 0 {
        let mut t = u64_to_string(minutes);
        t.append("m ");
        let s = u64_to_string(secs);
        t.append(s.as_str());
        t.append("s");
        t
    } else {
        let mut t = u64_to_string(secs);
        t.append("s");
        t
    }
}

/// How a daemon state is shown to chat users: `monitoring` reads `running`.
pub open spec fn state_label(state: Seq<char>) -> Seq<char> {
    if state == "monitoring"@ { "running"@ } else { state }
}

pub open spec fn field_is(f: BotCommandField, name: Seq<char>, value: Seq<char>, inline: bool) -> bool {
    f.name@ == name && f.value@ == value && f.inline == inline
}

fn field(name: &str, value: String, inline: bool) -> (f: BotCommandField)
    ensures
        field_is(f, name@, value@, inline),
{
    BotCommandField { name: name.to_string(), value, inline }
}

/// The status reply for a daemon status and the time of the last event
/// (as RFC 3339 text), if any.
pub fn status_result(status: &DaemonStatus, last_event: Option<String>) -> (r: BotCommandResult)
    ensures
        r.success,
        r.title@ == "Daemon status"@,
        r.body is None,
        r.fields@.len() == 4,
        field_is(r.fields@[0], "State"@, state_label(status.state@), true),
        field_is(r.fields@[1], "Uptime"@, duration_text(status.uptime_secs as nat), true),
        field_is(r.fields@[2], "Current session"@,
            match status.current_session { Some(s) => s@, None => "None"@ }, false),
        field_is(r.fields@[3], "Last event"@, match last_event { Some(t) => t@, None => "No events yet"@ }, false),
{
    let state_chars = chars_of(status.state.as_str());
    let label = if crate::text::chars_eq_str(state_chars.as_slice(), "monitoring") {
        "running".to_string()
    } else {
        status.state.clone()
    };
    let uptime = format_duration(status.uptime_secs);
    let current = match &status.current_session {
        Some(s) => s.clone(),
        None => "None".to_string(),
    };
    let last = match last_event {
        Some(t) => t,
        None => "No events yet".to_string(),
    };
    let mut fields: Vec<BotCommandField> = Vec::new();
    fields.push(field("State", label, true));
    fields.push(field("Uptime", uptime, true));
    fields.push(field("Current session", current, false));
    fields.push(field("Last event", last, false));
    BotCommandResult::success("Daemon status").with_fields(fields)
}

// ---------------------------------------------------------------------------
// Logs
// ---------------------------------------------------------------------------

/// What reading the daemon's log gave.
#[derive(Debug)]
pub enum LogTail {
    /// There is no log file.
    NoFile,
    /// Reading it failed, for this reason.
    Failed(String),
    /// Its lines, in order.
    Lines(Vec<String>),
}

/// Where the last `tail` of `len` lines start.
pub open spec fn tail_start(len: nat, tail: nat) -> nat {
    if len > tail { (len - tail) as nat } else { 0 }
}

/// The last `tail` lines.
pub open spec fn last_lines(ls: Seq<Seq<char>>, tail: nat) -> Seq<Seq<char>> {
    ls.skip(tail_start(ls.len(), tail) as int)
}

/// The last `tail` lines of a log.
pub fn log_tail(lines: &Vec<String>, tail: usize) -> (r: Vec<String>)
    ensures
        texts(r@) == last_lines(texts(lines@), tail as nat),
{
    let n = lines.len();
    let start: usize = if n > tail { n - tail } else { 0 };
    let mut out: Vec<String> = Vec::new();
    let mut i: usize = start;
    while i < n
        invariant
            n == lines@.len(),
            start <= i <= n,
            texts(out@) == texts(lines@).subrange(start as int, i as int),
        decreases n - i,
    {
        let ghost before = texts(out@);
        out.push(lines[i].clone());
        proof {
            assert(texts(out@) =~= before.push(lines@[i as int]@));
            assert(texts(lines@).subrange(start as int, i as int + 1)
                =~= texts(lines@).subrange(start as int, i as int).push(lines@[i as int]@));
        }
        i = i + 1;
    }
    proof { assert(texts(lines@).subrange(start as int, n as int) =~= texts(lines@).skip(start as int)); }
    out
}

/// Bytes kept of a first line that is too long on its own: the limit less
/// three (room for `...`), and never more than the line.
pub open spec fn log_cut(line: Seq<char>, max: nat) -> nat {
    let m: nat = if max >= 3 { (max - 3) as nat } else { 0 };
    if m < byte_len(line) { m } else { byte_len(line) }
}

/// Some prefix of the line has exactly [`log_cut`] bytes.
pub open spec fn cut_fits(line: Seq<char>, max: nat) -> bool {
    exists|j: int| 0 <= j <= line.len() && byte_len(#[trigger] line.take(j)) == log_cut(line, max)
}

/// The prefix of the line with [`log_cut`] bytes.
pub open spec fn cut_prefix(line: Seq<char>, max: nat) -> Seq<char> {
    line.take(choose|j: int| 0 <= j <= line.len() && byte_len(#[trigger] line.take(j)) == log_cut(line, max))
}

/// Log lines joined by newlines after the text `acc`, as long as the text
/// stays within `max` bytes (with one byte to spare); at the first line
/// that does not fit, the text gets `\n...(truncated)`, or, when it is
/// still empty, that line cut to fit followed by `...`.
pub open spec fn trunc_lines(acc: Seq<char>, lines: Seq<Seq<char>>, max: nat) -> Seq<char>
    decreases lines.len(),
{
    if lines.len() == 0 {
        acc
    } else {
        let line = lines[0];
        if byte_len(acc) + byte_len(line) + 1 > max {
            if acc.len() == 0 {
                cut_prefix(line, max) + "..."@
            } else {
                acc + "\n...(truncated)"@
            }
        } else {
            trunc_lines(if acc.len() == 0 { line } else { acc + "\n"@ + line }, lines.drop_first(), max)
        }
    }
}

/// Whether [`trunc_lines`] never has to cut a line inside a character.
pub open spec fn trunc_safe(acc: Seq<char>, lines: Seq<Seq<char>>, max: nat) -> bool
    decreases lines.len(),
{
    if lines.len() == 0 {
        true
    } else {
        let line = lines[0];
        if byte_len(acc) + byte_len(line) + 1 > max {
            acc.len() != 0 || cut_fits(line, max)
        } else {
            trunc_safe(if acc.len() == 0 { line } else { acc + "\n"@ + line }, lines.drop_first(), max)
        }
    }
}

fn take_chars(s: &[char], j: usize) -> (r: Vec<char>)
    requires
        j <= s@.len(),
    ensures
        r@ == s@.take(j as int),
{
    let mut out: Vec<char> = Vec::new();
    let mut i: usize = 0;
    while i < j
        invariant
            j <= s@.len(),
            i <= j,
            out@ == s@.take(i as int),
        decreases j - i,
    {
        out.push(s[i]);
        proof { assert(s@.take(i as int + 1) =~= s@.take(i as int).push(s@[i as int])); }
        i = i + 1;
    }
    out
}

fn truncate_core(lines: &[String], max_chars: usize) -> (r: Option<String>)
    ensures
        r is Some <==> trunc_safe(Seq::empty(), texts(lines@), max_chars as nat),
        r matches Some(s) ==> s@ == trunc_lines(Seq::empty(), texts(lines@), max_chars as nat),
{
    let ghost ls = texts(lines@);
    let ghost max = max_chars as nat;
    let n = lines.len();
    let mut result = String::new();
    let mut acc_bytes: u128 = 0;
    let mut i: usize = 0;
    proof { assert(ls.skip(0) =~= ls); }
    while i < n
        invariant
            n == lines@.len(),
            ls == texts(lines@),
            max == max_chars as nat,
            i <= n,
            acc_bytes == byte_len(result@),
            acc_bytes <= max_chars,
            trunc_lines(result@, ls.skip(i as int), max) == trunc_lines(Seq::empty(), ls, max),
            trunc_safe(result@, ls.skip(i as int), max) == trunc_safe(Seq::empty(), ls, max),
        decreases n - i,
    {
        proof {
            assert(ls.skip(i as int)[0] == lines@[i as int]@);
            assert(ls.skip(i as int).drop_first() =~= ls.skip(i as int + 1));
            lemma_byte_len_bound(result@);
        }
        let lc = chars_of(lines[i].as_str());
        let lb = chars_byte_len(lc.as_slice());
        let line_len = lc.len();
        proof { lemma_byte_len_bound(lc@); assert(lb <= 4 * line_len); }
        let empty = acc_bytes == 0;
        if acc_bytes + lb + 1 > max_chars as u128 {
            if empty {
                let m: usize = if max_chars >= 3 { max_chars - 3 } else { 0 };
                let k: usize = if (m as u128) < lb { m } else { lb as usize };
                let (j, _) = prefix_of_bytes(lc.as_slice(), k);
                match j {
                    Some(j) => {
                        let kept = take_chars(lc.as_slice(), j);
                        let mut out = string_from_chars(kept.as_slice());
                        out.append("...");
                        proof {
                            let line = lines@[i as int]@;
                            assert(cut_fits(line, max));
                            let jj = choose|jj: int| 0 <= jj <= line.len()
                                && byte_len(#[trigger] line.take(jj)) == log_cut(line, max);
                            if jj != j as int {
                                if jj < j {
                                    lemma_byte_len_monotone(line, jj, j as int);
                                } else {
                                    lemma_byte_len_monotone(line, j as int, jj);
                                }
                            }
                        }
                        return Some(out);
                    },
                    None => {
                        return None;
                    },
                }
            } else {
                result.append("\n...(truncated)");
                return Some(result);
            }
        }
        let ghost before = result@;
        if !empty {
            result.append("\n");
        }
        result.append(lines[i].as_str());
        proof {
            let line = lines@[i as int]@;
            if empty {
                assert(result@ =~= line);
            } else {
                assert(result@ =~= before + "\n"@ + line);
                lemma_byte_len_concat(before + "\n"@, line);
                lemma_byte_len_concat(before, "\n"@);
                reveal_with_fuel(byte_len, 2);
                assert(byte_len("\n"@) == 1) by {
                    reveal_strlit("\n");
                    assert("\n"@.drop_last() =~= Seq::<char>::empty());
                }
            }
        }
        acc_bytes = if empty { lb } else { acc_bytes + 1 + lb };
        i = i + 1;
    }
    proof { assert(ls.skip(n as int) =~= Seq::<Seq<char>>::empty()); }
    Some(result)
}

/// Whether [`truncate_log_lines`] can keep the lines within `max_chars`
/// bytes without cutting a character in two.
pub fn log_lines_fit(lines: &[String], max_chars: usize) -> (r: bool)
    ensures
        r == trunc_safe(Seq::empty(), texts(lines@), max_chars as nat),
{
    truncate_core(lines, max_chars).is_some()
}

/// Joins log lines by newlines within `max_chars` bytes (see
/// [`trunc_lines`]).
pub fn truncate_log_lines(lines: &[String], max_chars: usize) -> (r: String)
    requires
        trunc_safe(Seq::empty(), texts(lines@), max_chars as nat),
    ensures
        r@ == trunc_lines(Seq::empty(), texts(lines@), max_chars as nat),
{
    match truncate_core(lines, max_chars) {
        Some(s) => s,
        None => String::new(),
    }
}

/// Bytes of log text a reply shows at most.
pub const LOG_REPLY_LIMIT: usize = 1700;

pub open spec fn is_error_titled(r: BotCommandResult, title: Seq<char>) -> bool {
    !r.success && r.title@ == title && r.body is None && r.fields@.len() == 0
}

/// Whether the last `tail` lines read can be shown without cutting a
/// character in two.
pub open spec fn logs_showable(tail: usize, logs: LogTail) -> bool {
    logs matches LogTail::Lines(all) ==> trunc_safe(Seq::empty(), last_lines(texts(all@), tail as nat),
        LOG_REPLY_LIMIT as nat)
}

/// The reply to `logs` with `tail` lines, given what reading the log gave.
pub open spec fn logs_reply(tail: usize, logs: LogTail, r: BotCommandResult) -> bool {
    match logs {
        LogTail::NoFile => is_error_titled(r, "No log file found"@),
        LogTail::Failed(e) => is_error_titled(r, "Failed to read logs: "@ + e@),
        LogTail::Lines(all) => {
            let ls = last_lines(texts(all@), tail as nat);
            if ls.len() == 0 {
                r.success && r.title@ == "No log entries found"@ && r.body is None && r.fields@.len() == 0
            } else {
                &&& r.success
                &&& r.title@ == "Last "@ + dec(tail as nat) + " log lines"@
                &&& r.body matches Some(b) && b@ == "```\n"@ + trunc_lines(Seq::empty(), ls,
                    LOG_REPLY_LIMIT as nat) + "\n```"@
                &&& r.fields@.len() == 0
            }
        },
    }
}

/// Whether the lines read can be shown by [`CommandExecutor::execute`] for
/// `logs` with `tail` lines.
pub fn logs_can_be_shown(tail: usize, logs: &LogTail) -> (r: bool)
    ensures
        r == logs_showable(tail, *logs),
{
    match logs {
        LogTail::Lines(all) => {
            let ls = log_tail(all, tail);
            log_lines_fit(ls.as_slice(), LOG_REPLY_LIMIT)
        },
        _ => true,
    }
}

/// The help text.
pub open spec fn help_text() -> Seq<char> {
    "Available commands:\n- /palin status\n- /palin pause\n- /palin resume\n- /palin logs [--tail|-t N]\n- /palin new-session\n- /palin help"@
}

/// What a command does to the daemon's state and what it answers, where
/// `last_event` is the time of the last event as RFC 3339 text and `logs`
/// what reading the log gave.
pub open spec fn executed(command: BotCommand, before: DaemonState, after: DaemonState,
    last_event: Option<Seq<char>>, tail_logs: LogTail, r: BotCommandResult) -> bool {
    match command {
        BotCommand::Status => {
            &&& after == before
            &&& r.success && r.title@ == "Daemon status"@ && r.body is None && r.fields@.len() == 4
            &&& field_is(r.fields@[0], "State"@, if before.paused_spec() { "paused"@ } else { "running"@ }, true)
            &&& r.fields@[1].name@ == "Uptime"@
            &&& field_is(r.fields@[2], "Current session"@, "None"@, false)
            &&& field_is(r.fields@[3], "Last event"@,
                match last_event { Some(t) => t, None => "No events yet"@ }, false)
        },
        BotCommand::Pause => {
            &&& after.paused_spec()
            &&& after.sessions_spec() == before.sessions_spec()
            &&& after.resumes_spec() == before.resumes_spec()
            &&& after.config_spec() == before.config_spec()
            &&& if before.paused_spec() {
                is_error_titled(r, "Daemon already paused"@)
            } else {
                r.success && r.title@ == "Daemon paused successfully."@ && r.body is None && r.fields@.len() == 0
            }
        },
        BotCommand::Resume => {
            &&& !after.paused_spec()
            &&& after.sessions_spec() == before.sessions_spec()
            &&& after.config_spec() == before.config_spec()
            &&& if before.paused_spec() {
                &&& r.success && r.title@ == "Daemon resumed successfully."@ && r.body is None
                &&& r.fields@.len() == 0
                &&& after.resumes_spec() == before.resumes_spec().wrapping_add(1)
            } else {
                is_error_titled(r, "Daemon is not paused"@) && after.resumes_spec() == before.resumes_spec()
            }
        },
        BotCommand::NewSession => {
            &&& after.sessions_spec() == before.sessions_spec().wrapping_add(1)
            &&& after.paused_spec() == before.paused_spec()
            &&& after.resumes_spec() == before.resumes_spec()
            &&& after.config_spec() == before.config_spec()
            &&& r.success && r.title@ == "New session started"@ && r.fields@.len() == 0
            &&& r.body matches Some(b) && b@.len() == 48 && b@.take(12) == "Session ID: "@
                && is_v4_uuid_text(b@.skip(12))
        },
        BotCommand::Logs { tail } => after == before && logs_reply(tail, tail_logs, r),
        BotCommand::Help => {
            &&& after == before
            &&& r.success && r.title@ == "palingenesis bot help"@ && r.fields@.len() == 0
            &&& r.body matches Some(b) && b@ == help_text()
        },
    }
}

/// Runs bot commands; knows when the last event was broadcast.
#[derive(Debug)]
pub struct CommandExecutor {
    last_event: Option<Timestamp>,
}

impl CommandExecutor {
    /// The time of the last event broadcast, as RFC 3339 text.
    pub open spec fn last_event_text(self) -> Option<Seq<char>> {
        match self.last_event_spec() {
            Some(t) => Some(rfc3339_text(t.secs_of(), t.nanos_of())),
            None => None,
        }
    }

    pub closed spec fn last_event_spec(self) -> Option<Timestamp> {
        self.last_event
    }

    /// An executor that reports `last_event` as the time of the last event.
    pub fn new(last_event: Option<Timestamp>) -> (r: Self)
        ensures
            r.last_event_spec() == last_event,
    {
        CommandExecutor { last_event }
    }

    /// Runs `command` on the daemon's state; `logs` is what reading the log
    /// gave (only `logs` looks at it).
    pub fn execute(&self, command: BotCommand, state: &mut DaemonState, logs: LogTail) -> (r: BotCommandResult)
        requires
            command matches BotCommand::Logs { tail } ==> logs_showable(tail, logs),
        ensures
            executed(command, *old(state), *final(state), self.last_event_text(), logs, r),
    {
        match command {
            BotCommand::Status => self.execute_status(state),
            BotCommand::Pause => execute_pause(state),
            BotCommand::Resume => execute_resume(state),
            BotCommand::Logs { tail } => execute_logs(tail, logs),
            BotCommand::NewSession => execute_new_session(state),
            BotCommand::Help => execute_help(),
        }
    }

    fn execute_status(&self, state: &DaemonState) -> (r: BotCommandResult)
        ensures
            r.success && r.title@ == "Daemon status"@ && r.body is None && r.fields@.len() == 4,
            field_is(r.fields@[0], "State"@, if state.paused_spec() { "paused"@ } else { "running"@ }, true),
            r.fields@[1].name@ == "Uptime"@,
            field_is(r.fields@[2], "Current session"@, "None"@, false),
            field_is(r.fields@[3], "Last event"@,
                match self.last_event_text() { Some(t) => t, None => "No events yet"@ }, false),
    {
        let status = state.get_status();
        let last = match &self.last_event {
            Some(t) => Some(t.to_rfc3339()),
            None => None,
        };
        proof {
            reveal_strlit("paused");
            reveal_strlit("monitoring");
            assert("paused"@.len() != "monitoring"@.len());
        }
        status_result(&status, last)
    }
}

fn execute_pause(state: &mut DaemonState) -> (r: BotCommandResult)
    ensures
        executed(BotCommand::Pause, *old(state), *final(state), None, LogTail::NoFile, r),
{
    match pause_daemon(state) {
        Ok(()) => BotCommandResult::success("Daemon paused successfully."),
        Err(err) => BotCommandResult::error(err.message.as_str()),
    }
}

fn execute_resume(state: &mut DaemonState) -> (r: BotCommandResult)
    ensures
        executed(BotCommand::Resume, *old(state), *final(state), None, LogTail::NoFile, r),
{
    match resume_daemon(state) {
        Ok(()) => BotCommandResult::success("Daemon resumed successfully."),
        Err(err) => BotCommandResult::error(err.message.as_str()),
    }
}

fn execute_new_session(state: &mut DaemonState) -> (r: BotCommandResult)
    ensures
        executed(BotCommand::NewSession, *old(state), *final(state), None, LogTail::NoFile, r),
{
    match new_session_daemon(state) {
        Ok(session_id) => {
            let mut body = "Session ID: ".to_string();
            body.append(session_id.as_str());
            proof {
                reveal_strlit("Session ID: ");
                assert(body@.take(12) =~= "Session ID: "@);
                assert(body@.skip(12) =~= session_id@);
            }
            BotCommandResult::success("New session started").with_body(body.as_str())
        },
        Err(err) => BotCommandResult::error(err.message.as_str()),
    }
}

fn execute_logs(tail: usize, logs: LogTail) -> (r: BotCommandResult)
    requires
        logs_showable(tail, logs),
    ensures
        logs_reply(tail, logs, r),
{
    match logs {
        LogTail::NoFile => BotCommandResult::error("No log file found"),
        LogTail::Failed(e) => {
            let mut t = "Failed to read logs: ".to_string();
            t.append(e.as_str());
            BotCommandResult::error(t.as_str())
        },
        LogTail::Lines(all) => {
            let lines = log_tail(&all, tail);
            if lines.len() == 0 {
                return BotCommandResult::success("No log entries found");
            }
            let content = truncate_log_lines(lines.as_slice(), LOG_REPLY_LIMIT);
            let mut body = "```\n".to_string();
            body.append(content.as_str());
            body.append("\n```");
            let mut title = "Last ".to_string();
            let n = u64_to_string(tail as u64);
            title.append(n.as_str());
            title.append(" log lines");
            BotCommandResult::success(title.as_str()).with_body(body.as_str())
        },
    }
}

fn execute_help() -> (r: BotCommandResult)
    ensures
        r.success && r.title@ == "palingenesis bot help"@ && r.fields@.len() == 0,
        r.body matches Some(b) && b@ == help_text(),
{
    BotCommandResult::success("palingenesis bot help").with_body(
        "Available commands:\n- /palin status\n- /palin pause\n- /palin resume\n- /palin logs [--tail|-t N]\n- /palin new-session\n- /palin help")
}

} // verus!
