//! Command-line grammar.
//!
//! `palingenesis [--help|-h|--version|-V] [COMMAND]`, where COMMAND is one of
//! `daemon (start [-f|--foreground] | stop | restart | reload | status [--json])`,
//! `status [--json]`, `logs [-f|--follow] [-t|--tail N] [-s|--since S]`,
//! `pause`, `resume`, `new-session`, `config (init | show | validate | edit)`,
//! `mcp (serve | config)` or `help`. Options take their value from the next
//! argument or after `=` (long form) or directly after the short letter; a
//! flag given twice counts once and an option given twice keeps its last
//! value. `--help`/`-h` among a command's arguments asks for help.

use vstd::prelude::*;

use crate::text::{opt_text, chars_eq_str, chars_of, parse_unsigned, parse_unsigned_chars, string_from_chars};

verus! {

/// Parsed command line.
#[derive(Debug)]
pub struct Cli {
    pub command: Option<Commands>,
}

/// Top-level commands.
#[allow(inconsistent_fields)]
#[derive(Debug)]
pub enum Commands {
    /// Daemon control.
    Daemon { action: DaemonAction },
    /// Show daemon status.
    Status { json: bool },
    /// View daemon logs.
    Logs { follow: bool, tail: u32, since: Option<String> },
    /// Pause monitoring.
    Pause,
    /// Resume monitoring.
    Resume,
    /// Start a new session.
    NewSession,
    /// Configuration management.
    Config { action: ConfigAction },
    /// MCP server commands.
    Mcp { command: McpCommands },
}

/// `daemon` subcommands.
#[derive(Debug, Clone, Copy, PartialEq, Eq, Structural)]
pub enum DaemonAction {
    Start { foreground: bool },
    Stop,
    Restart,
    Reload,
    Status { json: bool },
}

/// `config` subcommands.
#[derive(Debug, Clone, Copy, PartialEq, Eq, Structural)]
pub enum ConfigAction {
    Init,
    Show,
    Validate,
    Edit,
}

/// `mcp` subcommands.
#[derive(Debug, Clone, Copy, PartialEq, Eq, Structural)]
pub enum McpCommands {
    Serve,
    Config,
}

/// Why a command line was not accepted.
#[derive(Debug, PartialEq, Eq)]
pub enum CliError {
    /// Help was asked for.
    DisplayHelp,
    /// The version was asked for.
    DisplayVersion,
    /// A command needs a subcommand and none was given.
    MissingSubcommand,
    /// An unknown command or subcommand.
    InvalidSubcommand(String),
    /// An unknown option or an unexpected argument.
    UnknownArgument(String),
    /// An option was given without its value.
    MissingValue(String),
    /// An option's value is not valid.
    InvalidValue(String),
}

// ---------------------------------------------------------------------------
// Abstract grammar
// ---------------------------------------------------------------------------

/// Abstract command, with texts as character sequences.
pub enum Cmd {
    Daemon(DaemonAction),
    Status(bool),
    Logs(bool, u32, Option<Seq<char>>),
    Pause,
    Resume,
    NewSession,
    Config(ConfigAction),
    Mcp(McpCommands),
}

/// Abstract error, with texts as character sequences.
pub enum CliErr {
    DisplayHelp,
    DisplayVersion,
    MissingSubcommand,
    InvalidSubcommand(Seq<char>),
    UnknownArgument(Seq<char>),
    MissingValue(Seq<char>),
    InvalidValue(Seq<char>),
}


impl View for Commands {
    type V = Cmd;

    open spec fn view(&self) -> Cmd {
        match *self {
            Commands::Daemon { action } => Cmd::Daemon(action),
            Commands::Status { json } => Cmd::Status(json),
            Commands::Logs { follow, tail, since } => Cmd::Logs(follow, tail, opt_text(since)),
            Commands::Pause => Cmd::Pause,
            Commands::Resume => Cmd::Resume,
            Commands::NewSession => Cmd::NewSession,
            Commands::Config { action } => Cmd::Config(action),
            Commands::Mcp { command } => Cmd::Mcp(command),
        }
    }
}

impl View for CliError {
    type V = CliErr;

    open spec fn view(&self) -> CliErr {
        match *self {
            CliError::DisplayHelp => CliErr::DisplayHelp,
            CliError::DisplayVersion => CliErr::DisplayVersion,
            CliError::MissingSubcommand => CliErr::MissingSubcommand,
            CliError::InvalidSubcommand(s) => CliErr::InvalidSubcommand(s@),
            CliError::UnknownArgument(s) => CliErr::UnknownArgument(s@),
            CliError::MissingValue(s) => CliErr::MissingValue(s@),
            CliError::InvalidValue(s) => CliErr::InvalidValue(s@),
        }
    }
}

pub open spec fn is_help(t: Seq<char>) -> bool {
    t == "--help"@ || t == "-h"@
}

/// A single boolean flag, given by its long and short spellings (the short
/// one may be empty when there is none).
pub open spec fn is_flag(t: Seq<char>, long: Seq<char>, short: Seq<char>) -> bool {
    t == long || (short.len() > 0 && t == short)
}

/// Scans the arguments of a command that takes one flag, from position `i`;
/// `seen` is whether the flag was given before `i`.
pub open spec fn scan_flag(ts: Seq<Seq<char>>, i: int, long: Seq<char>, short: Seq<char>, seen: bool)
    -> Result<bool, CliErr>
    decreases ts.len() - i,
{
    if i < 0 || i >= ts.len() {
        Ok(seen)
    } else if is_help(ts[i]) {
        Err(CliErr::DisplayHelp)
    } else if is_flag(ts[i], long, short) {
        scan_flag(ts, i + 1, long, short, true)
    } else {
        Err(CliErr::UnknownArgument(ts[i]))
    }
}

/// Scans the arguments of a command that takes none.
pub open spec fn scan_none(ts: Seq<Seq<char>>, i: int) -> Result<(), CliErr>
    decreases ts.len() - i,
{
    if i < 0 || i >= ts.len() {
        Ok(())
    } else if is_help(ts[i]) {
        Err(CliErr::DisplayHelp)
    } else {
        Err(CliErr::UnknownArgument(ts[i]))
    }
}

/// `u32::from_str`.
pub open spec fn parse_tail(v: Seq<char>) -> Option<u32> {
    match parse_unsigned(v, 0xffff_ffff) {
        Some(n) => Some(n as u32),
        None => None,
    }
}

/// State of a `logs` scan: follow, tail, since.
pub struct LogsState {
    pub follow: bool,
    pub tail: u32,
    pub since: Option<Seq<char>>,
}

/// The value given to an option written as `tok`, whose long name is `long`
/// and short name `short`: after `=` in the long form, the rest of a short
/// form, or the next argument. `None` when `tok` is not that option; the
/// inner `None` when the value is missing; the `bool` says whether the next
/// argument was used.
pub open spec fn option_value(ts: Seq<Seq<char>>, i: int, long: Seq<char>, short: Seq<char>)
    -> Option<(Option<Seq<char>>, bool)>
{
    let t = ts[i];
    if t == long || t == short {
        if i + 1 < ts.len() {
            Some((Some(ts[i + 1]), true))
        } else {
            Some((None, false))
        }
    } else if t.len() > long.len() && t.subrange(0, long.len() as int) == long && t[long.len() as int] == '=' {
        Some((Some(t.subrange(long.len() as int + 1, t.len() as int)), false))
    } else if t.len() > short.len() && t.subrange(0, short.len() as int) == short {
        Some((Some(t.subrange(short.len() as int, t.len() as int)), false))
    } else {
        None
    }
}

/// Scans the arguments of `logs` from position `i`.
pub open spec fn scan_logs(ts: Seq<Seq<char>>, i: int, st: LogsState) -> Result<LogsState, CliErr>
    decreases ts.len() - i,
{
    if i < 0 || i >= ts.len() {
        Ok(st)
    } else if is_help(ts[i]) {
        Err(CliErr::DisplayHelp)
    } else if is_flag(ts[i], "--follow"@, "-f"@) {
        scan_logs(ts, i + 1, LogsState { follow: true, ..st })
    } else if option_value(ts, i, "--tail"@, "-t"@) is Some {
        let (v, used_next) = option_value(ts, i, "--tail"@, "-t"@)->0;
        match v {
            None => Err(CliErr::MissingValue("--tail"@)),
            Some(x) => match parse_tail(x) {
                None => Err(CliErr::InvalidValue(x)),
                Some(n) => scan_logs(ts, if used_next { i + 2 } else { i + 1 }, LogsState { tail: n, ..st }),
            },
        }
    } else if option_value(ts, i, "--since"@, "-s"@) is Some {
        let (v, used_next) = option_value(ts, i, "--since"@, "-s"@)->0;
        match v {
            None => Err(CliErr::MissingValue("--since"@)),
            Some(x) => scan_logs(ts, if used_next { i + 2 } else { i + 1 }, LogsState { since: Some(x), ..st }),
        }
    } else {
        Err(CliErr::UnknownArgument(ts[i]))
    }
}

pub open spec fn daemon_action(ts: Seq<Seq<char>>) -> Result<DaemonAction, CliErr> {
    if ts.len() == 0 {
        Err(CliErr::MissingSubcommand)
    } else if is_help(ts[0]) || ts[0] == "help"@ {
        Err(CliErr::DisplayHelp)
    } else if ts[0] == "start"@ {
        match scan_flag(ts, 1, "--foreground"@, "-f"@, false) {
            Ok(f) => Ok(DaemonAction::Start { foreground: f }),
            Err(e) => Err(e),
        }
    } else if ts[0] == "stop"@ {
        match scan_none(ts, 1) { Ok(_) => Ok(DaemonAction::Stop), Err(e) => Err(e) }
    } else if ts[0] == "restart"@ {
        match scan_none(ts, 1) { Ok(_) => Ok(DaemonAction::Restart), Err(e) => Err(e) }
    } else if ts[0] == "reload"@ {
        match scan_none(ts, 1) { Ok(_) => Ok(DaemonAction::Reload), Err(e) => Err(e) }
    } else if ts[0] == "status"@ {
        match scan_flag(ts, 1, "--json"@, ""@, false) {
            Ok(j) => Ok(DaemonAction::Status { json: j }),
            Err(e) => Err(e),
        }
    } else {
        Err(CliErr::InvalidSubcommand(ts[0]))
    }
}

pub open spec fn config_action(ts: Seq<Seq<char>>) -> Result<ConfigAction, CliErr> {
    if ts.len() == 0 {
        Err(CliErr::MissingSubcommand)
    } else if is_help(ts[0]) || ts[0] == "help"@ {
        Err(CliErr::DisplayHelp)
    } else {
        let a = if ts[0] == "init"@ {
            Some(ConfigAction::Init)
        } else if ts[0] == "show"@ {
            Some(ConfigAction::Show)
        } else if ts[0] == "validate"@ {
            Some(ConfigAction::Validate)
        } else if ts[0] == "edit"@ {
            Some(ConfigAction::Edit)
        } else {
            None
        };
        match a {
            None => Err(CliErr::InvalidSubcommand(ts[0])),
            Some(x) => match scan_none(ts, 1) { Ok(_) => Ok(x), Err(e) => Err(e) },
        }
    }
}

pub open spec fn mcp_command(ts: Seq<Seq<char>>) -> Result<McpCommands, CliErr> {
    if ts.len() == 0 {
        Err(CliErr::MissingSubcommand)
    } else if is_help(ts[0]) || ts[0] == "help"@ {
        Err(CliErr::DisplayHelp)
    } else {
        let a = if ts[0] == "serve"@ {
            Some(McpCommands::Serve)
        } else if ts[0] == "config"@ {
            Some(McpCommands::Config)
        } else {
            None
        };
        match a {
            None => Err(CliErr::InvalidSubcommand(ts[0])),
            Some(x) => match scan_none(ts, 1) { Ok(_) => Ok(x), Err(e) => Err(e) },
        }
    }
}

/// The command line `args` (program name first) read by the grammar.
pub open spec fn parse_args(args: Seq<Seq<char>>) -> Result<Option<Cmd>, CliErr> {
    let ts = args.skip(1);
    if args.len() <= 1 {
        Ok(None)
    } else {
        let t = ts[0];
        let rest = ts.skip(1);
        if is_help(t) || t == "help"@ {
            Err(CliErr::DisplayHelp)
        } else if t == "--version"@ || t == "-V"@ {
            Err(CliErr::DisplayVersion)
        } else if t == "daemon"@ {
            match daemon_action(rest) { Ok(a) => Ok(Some(Cmd::Daemon(a))), Err(e) => Err(e) }
        } else if t == "status"@ {
            match scan_flag(rest, 0, "--json"@, ""@, false) {
                Ok(j) => Ok(Some(Cmd::Status(j))),
                Err(e) => Err(e),
            }
        } else if t == "logs"@ {
            match scan_logs(rest, 0, LogsState { follow: false, tail: 20, since: None }) {
                Ok(st) => Ok(Some(Cmd::Logs(st.follow, st.tail, st.since))),
                Err(e) => Err(e),
            }
        } else if t == "pause"@ {
            match scan_none(rest, 0) { Ok(_) => Ok(Some(Cmd::Pause)), Err(e) => Err(e) }
        } else if t == "resume"@ {
            match scan_none(rest, 0) { Ok(_) => Ok(Some(Cmd::Resume)), Err(e) => Err(e) }
        } else if t == "new-session"@ {
            match scan_none(rest, 0) { Ok(_) => Ok(Some(Cmd::NewSession)), Err(e) => Err(e) }
        } else if t == "config"@ {
            match config_action(rest) { Ok(a) => Ok(Some(Cmd::Config(a))), Err(e) => Err(e) }
        } else if t == "mcp"@ {
            match mcp_command(rest) { Ok(a) => Ok(Some(Cmd::Mcp(a))), Err(e) => Err(e) }
        } else if t.len() > 0 && t[0] == '-' {
            Err(CliErr::UnknownArgument(t))
        } else {
            Err(CliErr::InvalidSubcommand(t))
        }
    }
}

pub open spec fn arg_texts(args: Seq<&str>) -> Seq<Seq<char>> {
    args.map_values(|a: &str| a@)
}

// ---------------------------------------------------------------------------
// Parser
// ---------------------------------------------------------------------------

fn tok_is(t: &str, lit: &str) -> (r: bool)
    ensures
        r == (t@ == lit@),
{
    let c = chars_of(t);
    chars_eq_str(c.as_slice(), lit)
}

fn tok_is_help(t: &str) -> (r: bool)
    ensures
        r == is_help(t@),
{
    tok_is(t, "--help") || tok_is(t, "-h")
}

fn tok_is_flag(t: &str, long: &str, short: &str) -> (r: bool)
    ensures
        r == is_flag(t@, long@, short@),
{
    let sc = chars_of(short);
    tok_is(t, long) || (sc.len() > 0 && tok_is(t, short))
}

fn to_owned(t: &str) -> (r: String)
    ensures
        r@ == t@,
{
    t.to_string()
}

fn tail_from<'a>(v: &[&'a str], k: usize) -> (r: Vec<&'a str>)
    requires
        k <= v@.len(),
    ensures
        r@ == v@.skip(k as int),
        arg_texts(r@) == arg_texts(v@).skip(k as int),
{
    let mut out: Vec<&str> = Vec::new();
    let mut i: usize = k;
    while i < v.len()
        invariant
            k <= i <= v@.len(),
            out@ == v@.subrange(k as int, i as int),
        decreases v@.len() - i,
    {
        out.push(v[i]);
        proof { assert(v@.subrange(k as int, i as int + 1) =~= v@.subrange(k as int, i as int).push(v@[i as int])); }
        i = i + 1;
    }
    proof {
        assert(out@ =~= v@.skip(k as int));
        assert(arg_texts(out@) =~= arg_texts(v@).skip(k as int));
    }
    out
}

fn parse_flag(ts: &[&str], start: usize, long: &str, short: &str) -> (r: Result<bool, CliError>)
    requires
        start <= ts@.len(),
    ensures
        match r {
            Ok(b) => scan_flag(arg_texts(ts@), start as int, long@, short@, false) == Ok::<bool, CliErr>(b),
            Err(e) => scan_flag(arg_texts(ts@), start as int, long@, short@, false) == Err::<bool, CliErr>(e@),
        },
{
    let ghost a = arg_texts(ts@);
    let n = ts.len();
    let mut seen = false;
    let mut i = start;
    while i < n
        invariant
            n == ts@.len(),
            start <= i <= n,
            a == arg_texts(ts@),
            scan_flag(a, start as int, long@, short@, false) == scan_flag(a, i as int, long@, short@, seen),
        decreases n - i,
    {
        if tok_is_help(ts[i]) {
            return Err(CliError::DisplayHelp);
        } else if tok_is_flag(ts[i], long, short) {
            seen = true;
        } else {
            return Err(CliError::UnknownArgument(to_owned(ts[i])));
        }
        i = i + 1;
    }
    Ok(seen)
}

fn parse_none(ts: &[&str], start: usize) -> (r: Result<(), CliError>)
    requires
        start <= ts@.len(),
    ensures
        match r {
            Ok(_) => scan_none(arg_texts(ts@), start as int) is Ok,
            Err(e) => scan_none(arg_texts(ts@), start as int) == Err::<(), CliErr>(e@),
        },
{
    if start < ts.len() {
        if tok_is_help(ts[start]) {
            Err(CliError::DisplayHelp)
        } else {
            Err(CliError::UnknownArgument(to_owned(ts[start])))
        }
    } else {
        Ok(())
    }
}

/// Characters `from..` of a text.
fn text_from(t: &str, from: usize) -> (r: String)
    requires
        from <= t@.len(),
    ensures
        r@ == t@.subrange(from as int, t@.len() as int),
{
    let c = chars_of(t);
    let mut out: Vec<char> = Vec::new();
    let mut i = from;
    while i < c.len()
        invariant
            from <= i <= c@.len(),
            c@ == t@,
            out@ == c@.subrange(from as int, i as int),
        decreases c@.len() - i,
    {
        out.push(c[i]);
        proof { assert(c@.subrange(from as int, i as int + 1) =~= c@.subrange(from as int, i as int).push(c@[i as int])); }
        i = i + 1;
    }
    string_from_chars(out.as_slice())
}

/// Recognises an option and fetches its value (see [`option_value`]).
fn get_option(ts: &[&str], i: usize, long: &str, short: &str) -> (r: Option<(Option<String>, bool)>)
    requires
        i < ts@.len(),
    ensures
        match r {
            None => option_value(arg_texts(ts@), i as int, long@, short@) is None,
            Some((v, used)) => option_value(arg_texts(ts@), i as int, long@, short@)
                == Some::<(Option<Seq<char>>, bool)>((opt_text(v), used)),
        },
{
    let t = ts[i];
    let tc = chars_of(t);
    let lc = chars_of(long);
    let sc = chars_of(short);
    let ghost a = arg_texts(ts@);
    proof { assert(a[i as int] == t@); }
    if tok_is(t, long) || tok_is(t, short) {
        if i + 1 < ts.len() {
            proof { assert(a[i as int + 1] == ts@[i as int + 1]@); }
            Some((Some(to_owned(ts[i + 1])), true))
        } else {
            Some((None, false))
        }
    } else if tc.len() > lc.len() && crate::text::starts_with_chars(tc.as_slice(), lc.as_slice())
        && tc[lc.len()] == '=' {
        Some((Some(text_from(t, lc.len() + 1)), false))
    } else if tc.len() > sc.len() && crate::text::starts_with_chars(tc.as_slice(), sc.as_slice()) {
        Some((Some(text_from(t, sc.len())), false))
    } else {
        None
    }
}

pub open spec fn logs_view(follow: bool, tail: u32, since: Option<String>) -> LogsState {
    LogsState { follow, tail, since: opt_text(since) }
}

fn parse_logs(ts: &[&str]) -> (r: Result<Commands, CliError>)
    ensures
        match r {
            Ok(c) => scan_logs(arg_texts(ts@), 0, LogsState { follow: false, tail: 20, since: None })
                matches Ok(st) && c@ == Cmd::Logs(st.follow, st.tail, st.since),
            Err(e) => scan_logs(arg_texts(ts@), 0, LogsState { follow: false, tail: 20, since: None })
                == Err::<LogsState, CliErr>(e@),
        },
{
    let ghost a = arg_texts(ts@);
    let n = ts.len();
    let mut follow = false;
    let mut tail: u32 = 20;
    let mut since: Option<String> = None;
    let mut i: usize = 0;
    while i < n
        invariant
            n == ts@.len(),
            i <= n,
            a == arg_texts(ts@),
            scan_logs(a, 0, LogsState { follow: false, tail: 20, since: None })
                == scan_logs(a, i as int, logs_view(follow, tail, since)),
        decreases n - i,
    {
        if tok_is_help(ts[i]) {
            return Err(CliError::DisplayHelp);
        } else if tok_is_flag(ts[i], "--follow", "-f") {
            follow = true;
            i = i + 1;
        } else {
            match get_option(ts, i, "--tail", "-t") {
                Some((v, used)) => {
                    match v {
                        None => {
                            return Err(CliError::MissingValue("--tail".to_string()));
                        },
                        Some(x) => {
                            let xc = chars_of(x.as_str());
                            match parse_unsigned_chars(xc.as_slice(), 0xffff_ffff) {
                                None => {
                                    return Err(CliError::InvalidValue(x));
                                },
                                Some(k) => {
                                    tail = k as u32;
                                    i = if used { i + 2 } else { i + 1 };
                                },
                            }
                        },
                    }
                },
                None => {
                    match get_option(ts, i, "--since", "-s") {
                        Some((v, used)) => {
                            match v {
                                None => {
                                    return Err(CliError::MissingValue("--since".to_string()));
                                },
                                Some(x) => {
                                    since = Some(x);
                                    i = if used { i + 2 } else { i + 1 };
                                },
                            }
                        },
                        None => {
                            return Err(CliError::UnknownArgument(to_owned(ts[i])));
                        },
                    }
                },
            }
        }
    }
    Ok(Commands::Logs { follow, tail, since })
}

fn parse_daemon(ts: &[&str]) -> (r: Result<DaemonAction, CliError>)
    ensures
        match r {
            Ok(a) => daemon_action(arg_texts(ts@)) == Ok::<DaemonAction, CliErr>(a),
            Err(e) => daemon_action(arg_texts(ts@)) == Err::<DaemonAction, CliErr>(e@),
        },
{
    let ghost a = arg_texts(ts@);
    if ts.len() == 0 {
        return Err(CliError::MissingSubcommand);
    }
    proof { assert(a[0] == ts@[0]@); }
    let t = ts[0];
    if tok_is_help(t) || tok_is(t, "help") {
        Err(CliError::DisplayHelp)
    } else if tok_is(t, "start") {
        match parse_flag(ts, 1, "--foreground", "-f") {
            Ok(f) => Ok(DaemonAction::Start { foreground: f }),
            Err(e) => Err(e),
        }
    } else if tok_is(t, "stop") {
        match parse_none(ts, 1) { Ok(_) => Ok(DaemonAction::Stop), Err(e) => Err(e) }
    } else if tok_is(t, "restart") {
        match parse_none(ts, 1) { Ok(_) => Ok(DaemonAction::Restart), Err(e) => Err(e) }
    } else if tok_is(t, "reload") {
        match parse_none(ts, 1) { Ok(_) => Ok(DaemonAction::Reload), Err(e) => Err(e) }
    } else if tok_is(t, "status") {
        match parse_flag(ts, 1, "--json", "") {
            Ok(j) => Ok(DaemonAction::Status { json: j }),
            Err(e) => Err(e),
        }
    } else {
        Err(CliError::InvalidSubcommand(to_owned(t)))
    }
}

fn parse_config_action(ts: &[&str]) -> (r: Result<ConfigAction, CliError>)
    ensures
        match r {
            Ok(a) => config_action(arg_texts(ts@)) == Ok::<ConfigAction, CliErr>(a),
            Err(e) => config_action(arg_texts(ts@)) == Err::<ConfigAction, CliErr>(e@),
        },
{
    let ghost a = arg_texts(ts@);
    if ts.len() == 0 {
        return Err(CliError::MissingSubcommand);
    }
    proof { assert(a[0] == ts@[0]@); }
    let t = ts[0];
    if tok_is_help(t) || tok_is(t, "help") {
        return Err(CliError::DisplayHelp);
    }
    let act = if tok_is(t, "init") {
        ConfigAction::Init
    } else if tok_is(t, "show") {
        ConfigAction::Show
    } else if tok_is(t, "validate") {
        ConfigAction::Validate
    } else if tok_is(t, "edit") {
        ConfigAction::Edit
    } else {
        return Err(CliError::InvalidSubcommand(to_owned(t)));
    };
    match parse_none(ts, 1) { Ok(_) => Ok(act), Err(e) => Err(e) }
}

fn parse_mcp_command(ts: &[&str]) -> (r: Result<McpCommands, CliError>)
    ensures
        match r {
            Ok(a) => mcp_command(arg_texts(ts@)) == Ok::<McpCommands, CliErr>(a),
            Err(e) => mcp_command(arg_texts(ts@)) == Err::<McpCommands, CliErr>(e@),
        },
{
    let ghost a = arg_texts(ts@);
    if ts.len() == 0 {
        return Err(CliError::MissingSubcommand);
    }
    proof { assert(a[0] == ts@[0]@); }
    let t = ts[0];
    if tok_is_help(t) || tok_is(t, "help") {
        return Err(CliError::DisplayHelp);
    }
    let cmd = if tok_is(t, "serve") {
        McpCommands::Serve
    } else if tok_is(t, "config") {
        McpCommands::Config
    } else {
        return Err(CliError::InvalidSubcommand(to_owned(t)));
    };
    match parse_none(ts, 1) { Ok(_) => Ok(cmd), Err(e) => Err(e) }
}

pub open spec fn command_view(c: Option<Commands>) -> Option<Cmd> {
    match c {
        Some(x) => Some(x@),
        None => None,
    }
}

impl Cli {
    /// Parses a command line (program name first) by the grammar described
    /// at the top of this module.
    pub fn try_parse_from(args: &[&str]) -> (r: Result<Cli, CliError>)
        ensures
            match r {
                Ok(c) => parse_args(arg_texts(args@)) == Ok::<Option<Cmd>, CliErr>(command_view(c.command)),
                Err(e) => parse_args(arg_texts(args@)) == Err::<Option<Cmd>, CliErr>(e@),
            },
    {
        let ghost a = arg_texts(args@);
        if args.len() <= 1 {
            return Ok(Cli { command: None });
        }
        let ts = tail_from(args, 1);
        let rest = tail_from(ts.as_slice(), 1);
        let t = ts[0];
        proof {
            assert(arg_texts(ts@)[0] == t@);
        }
        let command = if tok_is_help(t) || tok_is(t, "help") {
            return Err(CliError::DisplayHelp);
        } else if tok_is(t, "--version") || tok_is(t, "-V") {
            return Err(CliError::DisplayVersion);
        } else if tok_is(t, "daemon") {
            match parse_daemon(rest.as_slice()) {
                Ok(x) => Commands::Daemon { action: x },
                Err(e) => { return Err(e); },
            }
        } else if tok_is(t, "status") {
            match parse_flag(rest.as_slice(), 0, "--json", "") {
                Ok(j) => Commands::Status { json: j },
                Err(e) => { return Err(e); },
            }
        } else if tok_is(t, "logs") {
            match parse_logs(rest.as_slice()) {
                Ok(c) => c,
                Err(e) => { return Err(e); },
            }
        } else if tok_is(t, "pause") {
            match parse_none(rest.as_slice(), 0) { Ok(_) => Commands::Pause, Err(e) => { return Err(e); } }
        } else if tok_is(t, "resume") {
            match parse_none(rest.as_slice(), 0) { Ok(_) => Commands::Resume, Err(e) => { return Err(e); } }
        } else if tok_is(t, "new-session") {
            match parse_none(rest.as_slice(), 0) { Ok(_) => Commands::NewSession, Err(e) => { return Err(e); } }
        } else if tok_is(t, "config") {
            match parse_config_action(rest.as_slice()) {
                Ok(x) => Commands::Config { action: x },
                Err(e) => { return Err(e); },
            }
        } else if tok_is(t, "mcp") {
            match parse_mcp_command(rest.as_slice()) {
                Ok(x) => Commands::Mcp { command: x },
                Err(e) => { return Err(e); },
            }
        } else {
            let tc = chars_of(t);
            if tc.len() > 0 && tc[0] == '-' {
                return Err(CliError::UnknownArgument(to_owned(t)));
            } else {
                return Err(CliError::InvalidSubcommand(to_owned(t)));
            }
        };
        Ok(Cli { command: Some(command) })
    }
}

} // verus!
