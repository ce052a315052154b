//! Reading configuration files for the command line: which settings need a
//! restart, where a syntax error is, which section is asked for, and which
//! editor to open.

use vstd::prelude::*;

use crate::config::schema::{Config, OtelConfig};
use crate::config::validation::{Issue, Notice, ValidationError, ValidationResult, ValidationWarning};
use crate::text::{byte_len, chars_eq, chars_of, lower, opt_text, to_lower, trim, trim_str, string_from_chars,
    chars_eq_str, utf8_width};

verus! {

pub open spec fn otel_same(a: Option<OtelConfig>, b: Option<OtelConfig>) -> bool {
    match (a, b) {
        (None, None) => true,
        (Some(x), Some(y)) => {
            &&& x.enabled == y.enabled
            &&& opt_text(x.endpoint) == opt_text(y.endpoint)
            &&& x.service_name@ == y.service_name@
            &&& x.traces == y.traces
            &&& x.metrics == y.metrics
            &&& x.metrics_enabled == y.metrics_enabled
            &&& x.protocol@ == y.protocol@
        },
        _ => false,
    }
}

pub open spec fn changed_if(differs: bool, name: Seq<char>) -> Seq<Seq<char>> {
    if differs { seq![name] } else { Seq::empty() }
}

/// The settings that changed between two configurations and only take
/// effect after a restart, in a fixed order.
pub open spec fn restart_settings(old: Config, new: Config) -> Seq<Seq<char>> {
    changed_if(opt_text(old.daemon.pid_file) != opt_text(new.daemon.pid_file), "daemon.pid_file"@)
    + changed_if(opt_text(old.daemon.socket_path) != opt_text(new.daemon.socket_path), "daemon.socket_path"@)
    + changed_if(old.daemon.http_enabled != new.daemon.http_enabled, "daemon.http_enabled"@)
    + changed_if(old.daemon.http_bind@ != new.daemon.http_bind@, "daemon.http_bind"@)
    + changed_if(old.daemon.http_port != new.daemon.http_port, "daemon.http_port"@)
    + changed_if(opt_text(old.daemon.log_file) != opt_text(new.daemon.log_file), "daemon.log_file"@)
    + changed_if(!otel_same(old.otel, new.otel), "otel"@)
}

fn text_eq(a: &String, b: &String) -> (r: bool)
    ensures
        r == (a@ == b@),
{
    let x = chars_of(a.as_str());
    let y = chars_of(b.as_str());
    chars_eq(x.as_slice(), y.as_slice())
}

fn opt_text_eq(a: &Option<String>, b: &Option<String>) -> (r: bool)
    ensures
        r == (opt_text(*a) == opt_text(*b)),
{
    match (a, b) {
        (None, None) => true,
        (Some(x), Some(y)) => text_eq(x, y),
        _ => false,
    }
}

fn otel_eq(a: &Option<OtelConfig>, b: &Option<OtelConfig>) -> (r: bool)
    ensures
        r == otel_same(*a, *b),
{
    match (a, b) {
        (None, None) => true,
        (Some(x), Some(y)) => {
            x.enabled == y.enabled && opt_text_eq(&x.endpoint, &y.endpoint)
                && text_eq(&x.service_name, &y.service_name) && x.traces == y.traces && x.metrics == y.metrics
                && x.metrics_enabled == y.metrics_enabled && text_eq(&x.protocol, &y.protocol)
        },
        _ => false,
    }
}

fn note_if(names: &mut Vec<String>, differs: bool, name: &str)
    ensures
        final(names)@.map_values(|s: String| s@) == old(names)@.map_values(|s: String| s@)
            + changed_if(differs, name@),
{
    let ghost before = names@.map_values(|s: String| s@);
    if differs {
        names.push(name.to_string());
        proof { assert(names@.map_values(|s: String| s@) =~= before + seq![name@]); }
    } else {
        proof { assert(names@.map_values(|s: String| s@) =~= before + Seq::<Seq<char>>::empty()); }
    }
}

/// The settings that changed between `old` and `new` and only take effect
/// after a restart (see [`restart_settings`]).
pub fn non_reloadable_changes(old: &Config, new: &Config) -> (r: Vec<String>)
    ensures
        r@.map_values(|s: String| s@) == restart_settings(*old, *new),
{
    let mut names: Vec<String> = Vec::new();
    proof { assert(names@.map_values(|s: String| s@) =~= Seq::<Seq<char>>::empty()); }
    note_if(&mut names, !opt_text_eq(&old.daemon.pid_file, &new.daemon.pid_file), "daemon.pid_file");
    note_if(&mut names, !opt_text_eq(&old.daemon.socket_path, &new.daemon.socket_path), "daemon.socket_path");
    note_if(&mut names, old.daemon.http_enabled != new.daemon.http_enabled, "daemon.http_enabled");
    note_if(&mut names, !text_eq(&old.daemon.http_bind, &new.daemon.http_bind), "daemon.http_bind");
    note_if(&mut names, old.daemon.http_port != new.daemon.http_port, "daemon.http_port");
    note_if(&mut names, !opt_text_eq(&old.daemon.log_file, &new.daemon.log_file), "daemon.log_file");
    note_if(&mut names, !otel_eq(&old.otel, &new.otel), "otel");
    proof {
        assert(Seq::<Seq<char>>::empty()
            + changed_if(opt_text(old.daemon.pid_file) != opt_text(new.daemon.pid_file), "daemon.pid_file"@)
            =~= changed_if(opt_text(old.daemon.pid_file) != opt_text(new.daemon.pid_file), "daemon.pid_file"@));
    }
    names
}

/// Line and column (both from 1) of the character at byte `offset`: the
/// characters before it are counted, a newline starting a new line.
pub open spec fn line_col_from(s: Seq<char>, k: nat, offset: nat, line: nat, col: nat) -> (nat, nat)
    decreases s.len() - k,
{
    if k >= s.len() || byte_len(s.take(k as int)) >= offset {
        (line, col)
    } else if s[k as int] == '\n' {
        line_col_from(s, k + 1, offset, line + 1, 1)
    } else {
        line_col_from(s, k + 1, offset, line, col + 1)
    }
}

/// Line and column of byte `offset` in `contents`.
pub fn line_col_from_offset(contents: &str, offset: usize) -> (r: (usize, usize))
    requires
        contents@.len() < usize::MAX,
    ensures
        (r.0 as nat, r.1 as nat) == line_col_from(contents@, 0, offset as nat, 1, 1),
{
    let s = chars_of(contents);
    let n = s.len();
    let mut line: usize = 1;
    let mut column: usize = 1;
    let mut pos: u128 = 0;
    let mut k: usize = 0;
    proof { assert(s@.take(0) =~= Seq::<char>::empty()); }
    while k < n
        invariant
            n == s@.len(),
            s@ == contents@,
            n < usize::MAX,
            k <= n,
            pos == byte_len(s@.take(k as int)),
            pos <= 4 * k,
            line + column <= k + 2,
            1 <= line,
            1 <= column,
            line_col_from(s@, k as nat, offset as nat, line as nat, column as nat)
                == line_col_from(s@, 0, offset as nat, 1, 1),
        decreases n - k,
    {
        if pos >= offset as u128 {
            return (line, column);
        }
        proof { assert(s@.take(k as int + 1).drop_last() =~= s@.take(k as int)); }
        let c = s[k];
        let u = c as u32;
        let w: u128 = if u < 0x80 { 1 } else if u < 0x800 { 2 } else if u < 0x10000 { 3 } else { 4 };
        if c == '\n' {
            line = line + 1;
            column = 1;
        } else {
            column = column + 1;
        }
        pos = pos + w;
        k = k + 1;
    }
    (line, column)
}

/// A section of the configuration that can be shown alone.
#[derive(Debug, Clone, Copy, PartialEq, Eq, Structural)]
pub enum ConfigSection {
    Daemon,
    Monitoring,
    Resume,
    Notifications,
    OpenCode,
    Mcp,
    Otel,
}

/// The section a name asks for, in any case of ASCII letters.
pub open spec fn section_of(name: Seq<char>) -> Result<ConfigSection, Seq<char>> {
    let n = lower(name);
    if n == "daemon"@ {
        Ok(ConfigSection::Daemon)
    } else if n == "monitoring"@ {
        Ok(ConfigSection::Monitoring)
    } else if n == "resume"@ {
        Ok(ConfigSection::Resume)
    } else if n == "notifications"@ {
        Ok(ConfigSection::Notifications)
    } else if n == "opencode"@ {
        Ok(ConfigSection::OpenCode)
    } else if n == "mcp"@ {
        Ok(ConfigSection::Mcp)
    } else if n == "otel"@ {
        Ok(ConfigSection::Otel)
    } else {
        Err("Unknown section: "@ + n
            + ". Valid sections: daemon, monitoring, resume, notifications, opencode, mcp, otel"@)
    }
}

/// The section named `name`.
pub fn config_section(name: &str) -> (r: Result<ConfigSection, String>)
    ensures
        match r {
            Ok(s) => section_of(name@) == Ok::<ConfigSection, Seq<char>>(s),
            Err(m) => section_of(name@) == Err::<ConfigSection, Seq<char>>(m@),
        },
{
    let lowered = to_lower(chars_of(name).as_slice());
    let n = lowered.as_slice();
    if chars_eq_str(n, "daemon") {
        Ok(ConfigSection::Daemon)
    } else if chars_eq_str(n, "monitoring") {
        Ok(ConfigSection::Monitoring)
    } else if chars_eq_str(n, "resume") {
        Ok(ConfigSection::Resume)
    } else if chars_eq_str(n, "notifications") {
        Ok(ConfigSection::Notifications)
    } else if chars_eq_str(n, "opencode") {
        Ok(ConfigSection::OpenCode)
    } else if chars_eq_str(n, "mcp") {
        Ok(ConfigSection::Mcp)
    } else if chars_eq_str(n, "otel") {
        Ok(ConfigSection::Otel)
    } else {
        let mut m = "Unknown section: ".to_string();
        let s = string_from_chars(n);
        m.append(s.as_str());
        m.append(". Valid sections: daemon, monitoring, resume, notifications, opencode, mcp, otel");
        Err(m)
    }
}

/// The editor to open: `EDITOR`, else `VISUAL` (each when not blank), else
/// `vi` or `nano` when installed.
pub open spec fn editor_choice(editor: Option<Seq<char>>, visual: Option<Seq<char>>, vi_installed: bool,
    nano_installed: bool) -> Result<Seq<char>, Seq<char>> {
    if editor matches Some(e) && trim(e).len() > 0 {
        Ok(editor->0)
    } else if visual matches Some(v) && trim(v).len() > 0 {
        Ok(visual->0)
    } else if vi_installed {
        Ok("vi"@)
    } else if nano_installed {
        Ok("nano"@)
    } else {
        Err("No editor found. Set the EDITOR environment variable (e.g., export EDITOR=vim)."@)
    }
}

fn not_blank(s: &Option<String>) -> (r: bool)
    ensures
        r == (s matches Some(t) && trim(t@).len() > 0),
{
    match s {
        Some(t) => trim_str(t.as_str()).len() > 0,
        None => false,
    }
}

/// Chooses the editor from the `EDITOR` and `VISUAL` variables and whether
/// `vi` and `nano` are installed (see [`editor_choice`]).
pub fn find_editor(editor: Option<String>, visual: Option<String>, vi_installed: bool, nano_installed: bool)
    -> (r: Result<String, String>)
    ensures
        match r {
            Ok(e) => editor_choice(opt_text(editor), opt_text(visual), vi_installed, nano_installed)
                == Ok::<Seq<char>, Seq<char>>(e@),
            Err(m) => editor_choice(opt_text(editor), opt_text(visual), vi_installed, nano_installed)
                == Err::<Seq<char>, Seq<char>>(m@),
        },
{
    if not_blank(&editor) {
        return Ok(editor.unwrap());
    }
    if not_blank(&visual) {
        return Ok(visual.unwrap());
    }
    if vi_installed {
        return Ok("vi".to_string());
    }
    if nano_installed {
        return Ok("nano".to_string());
    }
    Err("No editor found. Set the EDITOR environment variable (e.g., export EDITOR=vim).".to_string())
}

/// How checking a configuration file ended.
#[derive(Debug, Clone, Copy, PartialEq, Eq, Structural)]
pub enum ValidationStatus {
    /// There is no file; the defaults apply.
    Missing,
    /// The file has errors.
    Invalid,
    /// The file is valid.
    Valid,
}

/// The lines reporting warnings.
pub open spec fn warning_lines(ws: Seq<Notice>) -> Seq<Seq<char>>
    decreases ws.len(),
{
    if ws.len() == 0 {
        seq![]
    } else {
        warning_lines(ws.drop_last()).push("Warning: "@ + ws.last().field + ": "@ + ws.last().message)
    }
}

/// The lines reporting errors, each followed by its suggestion if any.
pub open spec fn error_lines(es: Seq<Issue>) -> Seq<Seq<char>>
    decreases es.len(),
{
    if es.len() == 0 {
        seq![]
    } else {
        let e = es.last();
        error_lines(es.drop_last()) + seq!["  "@ + e.field + ": "@ + e.message] + match e.suggestion {
            Some(s) => seq!["    Suggestion: "@ + s],
            None => Seq::empty(),
        }
    }
}

/// What the command line reports of a configuration's check: the lines
/// for the error stream, the lines for the output stream, and the outcome.
#[derive(Debug)]
pub struct ValidationReport {
    pub stderr_lines: Vec<String>,
    pub stdout_lines: Vec<String>,
    pub status: ValidationStatus,
}

pub open spec fn warnings_view(ws: Seq<ValidationWarning>) -> Seq<Notice> {
    ws.map_values(|w: ValidationWarning| w@)
}

pub open spec fn errors_view(es: Seq<ValidationError>) -> Seq<Issue> {
    es.map_values(|e: ValidationError| e@)
}

pub open spec fn lines_of(v: Seq<String>) -> Seq<Seq<char>> {
    v.map_values(|s: String| s@)
}

fn push_line(v: &mut Vec<String>, line: String)
    ensures
        lines_of(final(v)@) == lines_of(old(v)@).push(line@),
{
    v.push(line);
    proof { assert(lines_of(v@) =~= lines_of(old(v)@).push(line@)); }
}

/// Reports the warnings and errors of a configuration file that parsed:
/// each warning, then, when there are errors, a heading and each error
/// with its suggestion; else that the configuration is valid.
pub fn validation_report(result: &ValidationResult) -> (r: ValidationReport)
    ensures
        lines_of(r.stderr_lines@) == warning_lines(warnings_view(result.warnings@)) + if result.errors@.len() > 0 {
            seq!["\x1b[31mConfiguration errors:\x1b[0m"@] + error_lines(errors_view(result.errors@))
        } else {
            Seq::empty()
        },
        lines_of(r.stdout_lines@) == if result.errors@.len() > 0 {
            Seq::<Seq<char>>::empty()
        } else {
            seq!["\x1b[32mConfiguration valid\x1b[0m"@]
        },
        r.status == if result.errors@.len() > 0 { ValidationStatus::Invalid } else { ValidationStatus::Valid },
{
    let mut err: Vec<String> = Vec::new();
    let mut out: Vec<String> = Vec::new();
    proof { assert(lines_of(out@) =~= Seq::<Seq<char>>::empty()); }
    let ws = &result.warnings;
    let mut i: usize = 0;
    proof { assert(warnings_view(ws@.take(0)) =~= Seq::<Notice>::empty()); }
    while i < ws.len()
        invariant
            i <= ws@.len(),
            ws@ == result.warnings@,
            lines_of(err@) == warning_lines(warnings_view(ws@.take(i as int))),
        decreases ws@.len() - i,
    {
        proof {
            assert(warnings_view(ws@.take(i as int + 1)).drop_last() =~= warnings_view(ws@.take(i as int)));
            assert(warnings_view(ws@.take(i as int + 1)).last() == ws@[i as int]@);
        }
        let mut line = "Warning: ".to_string();
        line.append(ws[i].field.as_str());
        line.append(": ");
        line.append(ws[i].message.as_str());
        push_line(&mut err, line);
        i = i + 1;
    }
    proof { assert(ws@.take(ws@.len() as int) =~= ws@); }
    if result.errors.len() == 0 {
        push_line(&mut out, "\x1b[32mConfiguration valid\x1b[0m".to_string());
        proof {
            assert(lines_of(err@) =~= lines_of(err@) + Seq::<Seq<char>>::empty());
        }
        return ValidationReport { stderr_lines: err, stdout_lines: out, status: ValidationStatus::Valid };
    }
    let ghost warned = lines_of(err@);
    push_line(&mut err, "\x1b[31mConfiguration errors:\x1b[0m".to_string());
    let es = &result.errors;
    let mut j: usize = 0;
    proof { assert(errors_view(es@.take(0)) =~= Seq::<Issue>::empty()); }
    while j < es.len()
        invariant
            j <= es@.len(),
            es@ == result.errors@,
            lines_of(err@) == warned + seq!["\x1b[31mConfiguration errors:\x1b[0m"@]
                + error_lines(errors_view(es@.take(j as int))),
        decreases es@.len() - j,
    {
        proof {
            assert(errors_view(es@.take(j as int + 1)).drop_last() =~= errors_view(es@.take(j as int)));
            assert(errors_view(es@.take(j as int + 1)).last() == es@[j as int]@);
        }
        let ghost before = lines_of(err@);
        let mut line = "  ".to_string();
        line.append(es[j].field.as_str());
        line.append(": ");
        line.append(es[j].message.as_str());
        push_line(&mut err, line);
        match &es[j].suggestion {
            Some(s) => {
                let mut sline = "    Suggestion: ".to_string();
                sline.append(s.as_str());
                push_line(&mut err, sline);
            },
            None => {},
        }
        proof {
            let e = es@[j as int]@;
            assert(lines_of(err@) =~= before + seq!["  "@ + e.field + ": "@ + e.message] + match e.suggestion {
                Some(s) => seq!["    Suggestion: "@ + s],
                None => Seq::<Seq<char>>::empty(),
            });
        }
        j = j + 1;
    }
    proof {
        assert(es@.take(es@.len() as int) =~= es@);
        assert(lines_of(out@) =~= Seq::<Seq<char>>::empty());
    }
    ValidationReport { stderr_lines: err, stdout_lines: out, status: ValidationStatus::Invalid }
}

} // verus!
