//! Configuration validation.
//!
//! Every check of a configuration is stated as a spec function that lists the
//! errors and warnings it yields, in order. What the checks need to know of
//! the file system (whether a path exists, is a directory, and whether its
//! parent exists) is gathered first into [`PathFacts`]; the rest is pure.

use vstd::prelude::*;

use crate::config::paths::{path_parent, std_path_parent};
use crate::config::schema::{AuthorizedUser, Config};
use crate::codec::{hex_decode, is_hex_text};
use crate::text::{
    chars_of, opt_text, dec, starts_with, starts_with_chars, str_cat, str_cat3, string_from_chars, trim,
    trim_str, to_lowercase_string, u64_to_string, unicode_lowercase,
};

verus! {

// ---------------------------------------------------------------------------
// Types
// ---------------------------------------------------------------------------

/// An error found in a configuration.
#[derive(Debug)]
pub struct ValidationError {
    pub field: String,
    pub message: String,
    pub suggestion: Option<String>,
}

/// A warning about a configuration.
#[derive(Debug)]
pub struct ValidationWarning {
    pub field: String,
    pub message: String,
}

/// The errors and warnings of a configuration.
#[derive(Debug)]
pub struct ValidationResult {
    pub errors: Vec<ValidationError>,
    pub warnings: Vec<ValidationWarning>,
}

/// Abstract content of an error.
pub struct Issue {
    pub field: Seq<char>,
    pub message: Seq<char>,
    pub suggestion: Option<Seq<char>>,
}

/// Abstract content of a warning.
pub struct Notice {
    pub field: Seq<char>,
    pub message: Seq<char>,
}


impl View for ValidationError {
    type V = Issue;

    open spec fn view(&self) -> Issue {
        Issue { field: self.field@, message: self.message@, suggestion: opt_text(self.suggestion) }
    }
}

impl View for ValidationWarning {
    type V = Notice;

    open spec fn view(&self) -> Notice {
        Notice { field: self.field@, message: self.message@ }
    }
}

pub open spec fn issue(field: Seq<char>, message: Seq<char>, suggestion: Option<Seq<char>>) -> Issue {
    Issue { field, message, suggestion }
}

pub open spec fn notice(field: Seq<char>, message: Seq<char>) -> Notice {
    Notice { field, message }
}

pub open spec fn error_views(v: Seq<ValidationError>) -> Seq<Issue> {
    v.map_values(|e: ValidationError| e@)
}

pub open spec fn warning_views(v: Seq<ValidationWarning>) -> Seq<Notice> {
    v.map_values(|w: ValidationWarning| w@)
}

impl ValidationResult {
    /// A configuration is valid when it has no errors.
    pub fn is_valid(&self) -> (r: bool)
        ensures
            r == (self.errors@.len() == 0),
    {
        self.errors.len() == 0
    }
}

/// What the file system says of one configured path.
pub struct PathFacts {
    /// The path exists.
    pub exists: bool,
    /// The path exists and is a directory.
    pub is_dir: bool,
    /// `Path::parent` of the path.
    pub parent: Option<String>,
    /// The parent exists (false when there is none).
    pub parent_exists: bool,
}

/// The facts gathered for the four paths of a configuration that are checked
/// against the file system.
pub struct ConfigPathFacts {
    pub pid_file: PathFacts,
    pub socket_path: PathFacts,
    pub log_file: PathFacts,
    pub session_dir: PathFacts,
}

// ---------------------------------------------------------------------------
// Specification of the checks
// ---------------------------------------------------------------------------

pub open spec fn no_issues() -> Seq<Issue> {
    Seq::empty()
}

pub open spec fn no_notices() -> Seq<Notice> {
    Seq::empty()
}

/// The accepted log levels.
pub open spec fn is_known_level(l: Seq<char>) -> bool {
    l == "trace"@ || l == "debug"@ || l == "info"@ || l == "warn"@ || l == "error"@
}

/// Errors for a log level, given its trimmed and lower-cased text.
pub open spec fn log_level_issues(lowered: Seq<char>) -> Seq<Issue> {
    if is_known_level(lowered) {
        no_issues()
    } else {
        seq![issue("daemon.log_level"@, "Invalid log level: "@ + lowered,
            Some("Valid levels: trace, debug, info, warn, error"@))]
    }
}

/// Whether a text, trimmed and lower-cased, starts with `http://` or `https://`.
pub open spec fn is_http_url(v: Seq<char>) -> bool {
    let l = unicode_lowercase(trim(v));
    starts_with(l, "http://"@) || starts_with(l, "https://"@)
}

pub open spec fn port_issues(c: Config) -> Seq<Issue> {
    if c.daemon.http_port == 0 {
        seq![issue("daemon.http_port"@, "HTTP port must be between 1 and 65535"@,
            Some("Use a port between 1 and 65535"@))]
    } else {
        no_issues()
    }
}

pub open spec fn port_notices(c: Config) -> Seq<Notice> {
    if c.daemon.http_enabled && c.daemon.http_port < 1024 {
        seq![notice("daemon.http_port"@,
            "Port "@ + dec(c.daemon.http_port as nat) + " requires elevated privileges on most systems"@)]
    } else {
        no_notices()
    }
}

/// Errors for an optional file path whose parent directory should exist.
pub open spec fn file_path_issues(field: Seq<char>, path: Option<String>, f: PathFacts) -> Seq<Issue> {
    match path {
        None => no_issues(),
        Some(p) => if f.exists && f.is_dir {
            seq![issue(field, "Expected a file path but found a directory: "@ + p@, None)]
        } else {
            match f.parent {
                Some(_) => no_issues(),
                None => seq![issue(field, "Invalid file path"@,
                    Some("Update the path to a valid file location"@))],
            }
        },
    }
}

/// Warnings for an optional file path whose parent directory should exist.
pub open spec fn file_path_notices(field: Seq<char>, path: Option<String>, f: PathFacts) -> Seq<Notice> {
    match path {
        None => no_notices(),
        Some(p) => if f.exists && f.is_dir {
            no_notices()
        } else {
            match f.parent {
                Some(q) => if f.parent_exists {
                    no_notices()
                } else {
                    seq![notice(field, "Parent directory does not exist yet but can be created: "@ + q@)]
                },
                None => no_notices(),
            }
        },
    }
}

/// Errors for a directory path.
pub open spec fn dir_path_issues(field: Seq<char>, p: Seq<char>, f: PathFacts) -> Seq<Issue> {
    if f.exists {
        if !f.is_dir {
            seq![issue(field, "Path is not a directory: "@ + p, None)]
        } else {
            no_issues()
        }
    } else {
        match f.parent {
            Some(q) => if f.parent_exists {
                no_issues()
            } else {
                seq![issue(field, "Parent directory does not exist: "@ + q@,
                    Some("Create the parent directory or update the path"@))]
            },
            None => seq![issue(field, "Invalid directory path"@,
                Some("Update the path to a valid directory"@))],
        }
    }
}

/// Warnings for a directory path.
pub open spec fn dir_path_notices(field: Seq<char>, p: Seq<char>, f: PathFacts) -> Seq<Notice> {
    if !f.exists && f.parent is Some && f.parent_exists {
        seq![notice(field, "Directory does not exist yet but can be created: "@ + p)]
    } else {
        no_notices()
    }
}

pub open spec fn monitoring_issues(c: Config) -> Seq<Issue> {
    (if c.monitoring.debounce_ms == 0 {
        seq![issue("monitoring.debounce_ms"@, "Debounce duration must be positive"@,
            Some("Use a value of at least 1 ms"@))]
    } else {
        no_issues()
    }) + (if c.monitoring.auto_detect_interval_secs == 0 {
        seq![issue("monitoring.auto_detect_interval_secs"@, "Auto-detect interval must be positive"@,
            Some("Use a value of at least 1 second"@))]
    } else {
        no_issues()
    }) + (if c.monitoring.poll_interval_secs == Some(0u64) {
        seq![issue("monitoring.poll_interval_secs"@, "Polling interval must be positive"@,
            Some("Use a value of at least 1 second"@))]
    } else {
        no_issues()
    })
}

pub open spec fn resume_issues(c: Config) -> Seq<Issue> {
    (if c.resume.base_delay_secs == 0 {
        seq![issue("resume.base_delay_secs"@, "Base delay cannot be zero"@,
            Some("Use a value of at least 1 second"@))]
    } else {
        no_issues()
    }) + (if c.resume.max_delay_secs == 0 {
        seq![issue("resume.max_delay_secs"@, "Max delay cannot be zero"@,
            Some("Use a value of at least 1 second"@))]
    } else {
        no_issues()
    }) + (if c.resume.max_delay_secs < c.resume.base_delay_secs {
        seq![issue("resume.max_delay_secs"@, "Max delay cannot be less than base delay"@, None)]
    } else {
        no_issues()
    })
}

pub open spec fn resume_notices(c: Config) -> Seq<Notice> {
    if c.resume.enabled && c.resume.max_retries == 0 {
        seq![notice("resume.max_retries"@, "Resume enabled but max_retries is 0 (will never retry)"@)]
    } else {
        no_notices()
    }
}

pub open spec fn url_issue(field: Seq<char>, message: Seq<char>, url: Option<String>) -> Seq<Issue> {
    match url {
        Some(u) => if is_http_url(u@) {
            no_issues()
        } else {
            seq![issue(field, message, None)]
        },
        None => no_issues(),
    }
}

pub open spec fn notification_issues(c: Config) -> Seq<Issue> {
    url_issue("notifications.webhook.url"@, "Webhook URL must start with http:// or https://"@,
        match c.notifications.webhook { Some(w) => Some(w.url), None => None })
    + (match c.notifications.ntfy {
        Some(n) => (if trim(n.topic@).len() == 0 {
            seq![issue("notifications.ntfy.topic"@, "ntfy topic cannot be empty"@, None)]
        } else {
            no_issues()
        }) + url_issue("notifications.ntfy.server"@, "ntfy server must start with http:// or https://"@, n.server),
        None => no_issues(),
    })
    + url_issue("otel.endpoint"@, "OpenTelemetry endpoint must start with http:// or https://"@,
        match c.otel { Some(o) => o.endpoint, None => None })
}

pub open spec fn user_field(i: nat) -> Seq<char> {
    "bot.authorized_users["@ + dec(i) + "].user_id"@
}

/// Errors for the first `n` authorized users.
pub open spec fn user_issues(users: Seq<AuthorizedUser>, n: nat) -> Seq<Issue>
    decreases n,
{
    if n == 0 {
        no_issues()
    } else {
        user_issues(users, (n - 1) as nat) + (if trim(users[n - 1].user_id@).len() == 0 {
            seq![issue(user_field((n - 1) as nat), "Authorized user ID cannot be empty"@, None)]
        } else {
            no_issues()
        })
    }
}

pub open spec fn bot_issues(c: Config) -> Seq<Issue> {
    let b = c.bot;
    if !b.enabled {
        no_issues()
    } else {
        (if b.discord_public_key is None && b.slack_signing_secret is None {
            seq![issue("bot.enabled"@, "Bot enabled but no signing keys configured"@,
                Some("Set bot.discord_public_key or bot.slack_signing_secret"@))]
        } else {
            no_issues()
        }) + (match b.discord_public_key {
            Some(k) => if trim(k@).len() == 0 {
                seq![issue("bot.discord_public_key"@, "Discord public key cannot be empty"@, None)]
            } else if !is_hex_text(trim(k@)) {
                seq![issue("bot.discord_public_key"@, "Discord public key must be hex-encoded"@,
                    Some("Use the hex public key from the Discord developer portal"@))]
            } else {
                no_issues()
            },
            None => no_issues(),
        }) + (match b.slack_signing_secret {
            Some(s) => if trim(s@).len() == 0 {
                seq![issue("bot.slack_signing_secret"@, "Slack signing secret cannot be empty"@, None)]
            } else {
                no_issues()
            },
            None => no_issues(),
        }) + user_issues(b.authorized_users@, b.authorized_users@.len())
    }
}

pub open spec fn bot_notices(c: Config) -> Seq<Notice> {
    if c.bot.enabled && c.bot.authorized_users@.len() == 0 && !c.bot.allow_all_users {
        seq![notice("bot.authorized_users"@, "No authorized users configured; commands will be rejected"@)]
    } else {
        no_notices()
    }
}

/// All errors of a configuration, in the order they are reported.
pub open spec fn config_issues(c: Config, f: ConfigPathFacts) -> Seq<Issue> {
    log_level_issues(unicode_lowercase(trim(c.daemon.log_level@)))
    + port_issues(c)
    + file_path_issues("daemon.pid_file"@, c.daemon.pid_file, f.pid_file)
    + file_path_issues("daemon.socket_path"@, c.daemon.socket_path, f.socket_path)
    + file_path_issues("daemon.log_file"@, c.daemon.log_file, f.log_file)
    + dir_path_issues("monitoring.session_dir"@, c.monitoring.session_dir@, f.session_dir)
    + monitoring_issues(c)
    + resume_issues(c)
    + notification_issues(c)
    + bot_issues(c)
}

/// A maximum resume delay below the base delay is always an error of the
/// configuration, whatever its paths hold, so it never validates; and it is
/// reported by the resume checks.
pub proof fn lemma_max_below_base_is_an_error(c: Config, f: ConfigPathFacts)
    requires
        c.resume.max_delay_secs < c.resume.base_delay_secs,
    ensures
        resume_issues(c).contains(issue("resume.max_delay_secs"@, "Max delay cannot be less than base delay"@, None)),
        config_issues(c, f).contains(issue("resume.max_delay_secs"@, "Max delay cannot be less than base delay"@, None)),
        config_issues(c, f).len() > 0,
{
    let e = issue("resume.max_delay_secs"@, "Max delay cannot be less than base delay"@, None);
    let r = resume_issues(c);
    assert(r[r.len() - 1] == e);
    let before = log_level_issues(unicode_lowercase(trim(c.daemon.log_level@)))
        + port_issues(c)
        + file_path_issues("daemon.pid_file"@, c.daemon.pid_file, f.pid_file)
        + file_path_issues("daemon.socket_path"@, c.daemon.socket_path, f.socket_path)
        + file_path_issues("daemon.log_file"@, c.daemon.log_file, f.log_file)
        + dir_path_issues("monitoring.session_dir"@, c.monitoring.session_dir@, f.session_dir)
        + monitoring_issues(c);
    let after = notification_issues(c) + bot_issues(c);
    let all = config_issues(c, f);
    assert(all =~= before + r + after);
    assert(all[before.len() + r.len() - 1] == e);
}

/// All warnings of a configuration, in the order they are reported.
pub open spec fn config_notices(c: Config, f: ConfigPathFacts) -> Seq<Notice> {
    port_notices(c)
    + file_path_notices("daemon.pid_file"@, c.daemon.pid_file, f.pid_file)
    + file_path_notices("daemon.socket_path"@, c.daemon.socket_path, f.socket_path)
    + file_path_notices("daemon.log_file"@, c.daemon.log_file, f.log_file)
    + dir_path_notices("monitoring.session_dir"@, c.monitoring.session_dir@, f.session_dir)
    + resume_notices(c)
    + bot_notices(c)
}

/// The facts describe the given path: its parent is what `Path::parent`
/// gives, and a directory exists.
pub open spec fn facts_for(p: Seq<char>, f: PathFacts) -> bool {
    &&& opt_text(f.parent) == std_path_parent(p)
    &&& (f.is_dir ==> f.exists)
    &&& (f.parent is None ==> !f.parent_exists)
}

pub open spec fn opt_facts_for(p: Option<String>, f: PathFacts) -> bool {
    match p {
        Some(s) => facts_for(s@, f),
        None => true,
    }
}

pub open spec fn config_facts_for(c: Config, f: ConfigPathFacts) -> bool {
    &&& opt_facts_for(c.daemon.pid_file, f.pid_file)
    &&& opt_facts_for(c.daemon.socket_path, f.socket_path)
    &&& opt_facts_for(c.daemon.log_file, f.log_file)
    &&& facts_for(c.monitoring.session_dir@, f.session_dir)
}

// ---------------------------------------------------------------------------
// Outside calls
// ---------------------------------------------------------------------------

/// Calls `std::path::Path::exists`. What it returns depends on the file
/// system at the time of the call, so nothing is stated of it.
#[verifier::external_body]
pub(crate) fn path_exists(p: &str) -> bool {
    std::path::Path::new(p).exists()
}

/// Calls `std::path::Path::is_dir`, which is true only for a path that
/// exists; whether it does depends on the file system at the time of the call.
#[verifier::external_body]
fn path_is_dir(p: &str) -> (r: bool) {
    std::path::Path::new(p).is_dir()
}

// ---------------------------------------------------------------------------
// Checks
// ---------------------------------------------------------------------------

/// Looks up the file-system facts of one path.
pub fn probe_path(p: &str) -> (r: PathFacts)
    ensures
        facts_for(p@, r),
{
    let parent = path_parent(p);
    let is_dir = path_is_dir(p);
    let exists = is_dir || path_exists(p);
    let parent_exists = match &parent {
        Some(q) => path_exists(q.as_str()),
        None => false,
    };
    PathFacts { exists, is_dir, parent, parent_exists }
}

fn probe_opt_path(p: &Option<String>) -> (r: PathFacts)
    ensures
        opt_facts_for(*p, r),
{
    match p {
        Some(s) => probe_path(s.as_str()),
        None => PathFacts { exists: false, is_dir: false, parent: None, parent_exists: false },
    }
}

fn push_error(errors: &mut Vec<ValidationError>, field: String, message: String, suggestion: Option<String>)
    ensures
        error_views(final(errors)@) == error_views(old(errors)@).push(
            issue(field@, message@, opt_text(suggestion)),
        ),
{
    let e = ValidationError { field, message, suggestion };
    errors.push(e);
    proof {
        assert(error_views(final(errors)@) =~= error_views(old(errors)@).push(e@));
    }
}

fn push_warning(warnings: &mut Vec<ValidationWarning>, field: String, message: String)
    ensures
        warning_views(final(warnings)@) == warning_views(old(warnings)@).push(notice(field@, message@)),
{
    let w = ValidationWarning { field, message };
    warnings.push(w);
    proof {
        assert(warning_views(final(warnings)@) =~= warning_views(old(warnings)@).push(w@));
    }
}

/// The error for a log level, given its trimmed, lower-cased text.
pub fn log_level_error(lowered: &str) -> (r: Option<ValidationError>)
    ensures
        match r {
            Some(e) => log_level_issues(lowered@) == seq![e@],
            None => log_level_issues(lowered@) == no_issues(),
        },
{
    let l = chars_of(lowered);
    let t = chars_of("trace");
    let d = chars_of("debug");
    let i = chars_of("info");
    let w = chars_of("warn");
    let e = chars_of("error");
    if crate::text::chars_eq(l.as_slice(), t.as_slice()) || crate::text::chars_eq(l.as_slice(), d.as_slice())
        || crate::text::chars_eq(l.as_slice(), i.as_slice()) || crate::text::chars_eq(l.as_slice(), w.as_slice())
        || crate::text::chars_eq(l.as_slice(), e.as_slice()) {
        None
    } else {
        let err = ValidationError {
            field: "daemon.log_level".to_string(),
            message: str_cat("Invalid log level: ", lowered),
            suggestion: Some("Valid levels: trace, debug, info, warn, error".to_string()),
        };
        proof { assert(log_level_issues(lowered@) =~= seq![err@]); }
        Some(err)
    }
}

/// Whether a URL text, trimmed and lower-cased, uses `http://` or `https://`.
pub fn is_http_url_text(v: &str) -> (r: bool)
    ensures
        r == is_http_url(v@),
{
    let t = trim_str(v);
    let ts = string_from_chars(t.as_slice());
    let l = to_lowercase_string(ts.as_str());
    let lc = chars_of(l.as_str());
    let h1 = chars_of("http://");
    let h2 = chars_of("https://");
    starts_with_chars(lc.as_slice(), h1.as_slice()) || starts_with_chars(lc.as_slice(), h2.as_slice())
}

fn check_file_path(
    field: &str,
    path: &Option<String>,
    f: &PathFacts,
    errors: &mut Vec<ValidationError>,
    warnings: &mut Vec<ValidationWarning>,
)
    ensures
        error_views(final(errors)@) == error_views(old(errors)@) + file_path_issues(field@, *path, *f),
        warning_views(final(warnings)@) == warning_views(old(warnings)@) + file_path_notices(field@, *path, *f),
{
    match path {
        None => {
            proof {
                assert(error_views(errors@) =~= error_views(errors@) + no_issues());
                assert(warning_views(warnings@) =~= warning_views(warnings@) + no_notices());
            }
        },
        Some(p) => {
            if f.exists && f.is_dir {
                push_error(errors, field.to_string(),
                    str_cat("Expected a file path but found a directory: ", p.as_str()), None);
                proof { assert(warning_views(warnings@) =~= warning_views(warnings@) + no_notices()); }
            } else {
                match &f.parent {
                    Some(q) => {
                        if !f.parent_exists {
                            push_warning(warnings, field.to_string(),
                                str_cat("Parent directory does not exist yet but can be created: ", q.as_str()));
                        } else {
                            proof { assert(warning_views(warnings@) =~= warning_views(warnings@) + no_notices()); }
                        }
                        proof { assert(error_views(errors@) =~= error_views(errors@) + no_issues()); }
                    },
                    None => {
                        push_error(errors, field.to_string(), "Invalid file path".to_string(),
                            Some("Update the path to a valid file location".to_string()));
                        proof { assert(warning_views(warnings@) =~= warning_views(warnings@) + no_notices()); }
                    },
                }
            }
        },
    }
}

fn check_dir_path(
    field: &str,
    p: &str,
    f: &PathFacts,
    errors: &mut Vec<ValidationError>,
    warnings: &mut Vec<ValidationWarning>,
)
    ensures
        error_views(final(errors)@) == error_views(old(errors)@) + dir_path_issues(field@, p@, *f),
        warning_views(final(warnings)@) == warning_views(old(warnings)@) + dir_path_notices(field@, p@, *f),
{
    if f.exists {
        if !f.is_dir {
            push_error(errors, field.to_string(), str_cat("Path is not a directory: ", p), None);
        } else {
            proof { assert(error_views(errors@) =~= error_views(errors@) + no_issues()); }
        }
        proof { assert(warning_views(warnings@) =~= warning_views(warnings@) + no_notices()); }
    } else {
        match &f.parent {
            Some(q) => {
                if f.parent_exists {
                    push_warning(warnings, field.to_string(),
                        str_cat("Directory does not exist yet but can be created: ", p));
                    proof { assert(error_views(errors@) =~= error_views(errors@) + no_issues()); }
                } else {
                    push_error(errors, field.to_string(), str_cat("Parent directory does not exist: ", q.as_str()),
                        Some("Create the parent directory or update the path".to_string()));
                    proof { assert(warning_views(warnings@) =~= warning_views(warnings@) + no_notices()); }
                }
            },
            None => {
                push_error(errors, field.to_string(), "Invalid directory path".to_string(),
                    Some("Update the path to a valid directory".to_string()));
                proof { assert(warning_views(warnings@) =~= warning_views(warnings@) + no_notices()); }
            },
        }
    }
}

fn check_url(
    field: &str,
    message: &str,
    url: &Option<String>,
    errors: &mut Vec<ValidationError>,
)
    ensures
        error_views(final(errors)@) == error_views(old(errors)@) + url_issue(field@, message@, *url),
{
    match url {
        Some(u) => {
            if !is_http_url_text(u.as_str()) {
                push_error(errors, field.to_string(), message.to_string(), None);
            } else {
                proof { assert(error_views(errors@) =~= error_views(errors@) + no_issues()); }
            }
        },
        None => {
            proof { assert(error_views(errors@) =~= error_views(errors@) + no_issues()); }
        },
    }
}

fn check_users(users: &Vec<AuthorizedUser>, errors: &mut Vec<ValidationError>)
    ensures
        error_views(final(errors)@) == error_views(old(errors)@) + user_issues(users@, users@.len()),
{
    let n = users.len();
    let mut i: usize = 0;
    proof { assert(error_views(errors@) =~= error_views(old(errors)@) + user_issues(users@, 0)); }
    while i < n
        invariant
            n == users@.len(),
            i <= n,
            error_views(errors@) == error_views(old(errors)@) + user_issues(users@, i as nat),
        decreases n - i,
    {
        let t = trim_str(users[i].user_id.as_str());
        let ghost before = error_views(errors@);
        if t.len() == 0 {
            let idx = u64_to_string(i as u64);
            let field = str_cat3("bot.authorized_users[", idx.as_str(), "].user_id");
            push_error(errors, field, "Authorized user ID cannot be empty".to_string(), None);
            proof {
                assert(error_views(errors@) =~= error_views(old(errors)@) + user_issues(users@, (i + 1) as nat));
            }
        } else {
            proof {
                assert(error_views(errors@) =~= error_views(old(errors)@) + user_issues(users@, (i + 1) as nat));
            }
        }
        i = i + 1;
    }
}

fn check_bot(c: &Config, errors: &mut Vec<ValidationError>, warnings: &mut Vec<ValidationWarning>)
    ensures
        error_views(final(errors)@) == error_views(old(errors)@) + bot_issues(*c),
        warning_views(final(warnings)@) == warning_views(old(warnings)@) + bot_notices(*c),
{
    let b = &c.bot;
    if !b.enabled {
        proof {
            assert(error_views(errors@) =~= error_views(errors@) + no_issues());
            assert(warning_views(warnings@) =~= warning_views(warnings@) + no_notices());
        }
        return;
    }
    let ghost e0 = error_views(errors@);
    if b.discord_public_key.is_none() && b.slack_signing_secret.is_none() {
        push_error(errors, "bot.enabled".to_string(), "Bot enabled but no signing keys configured".to_string(),
            Some("Set bot.discord_public_key or bot.slack_signing_secret".to_string()));
    } else {
        proof { assert(error_views(errors@) =~= error_views(errors@) + no_issues()); }
    }
    let ghost e1 = error_views(errors@);
    match &b.discord_public_key {
        Some(key) => {
            let t = trim_str(key.as_str());
            if t.len() == 0 {
                push_error(errors, "bot.discord_public_key".to_string(),
                    "Discord public key cannot be empty".to_string(), None);
            } else {
                let ts = string_from_chars(t.as_slice());
                if hex_decode(ts.as_str()).is_none() {
                    push_error(errors, "bot.discord_public_key".to_string(),
                        "Discord public key must be hex-encoded".to_string(),
                        Some("Use the hex public key from the Discord developer portal".to_string()));
                } else {
                    proof { assert(error_views(errors@) =~= error_views(errors@) + no_issues()); }
                }
            }
        },
        None => {
            proof { assert(error_views(errors@) =~= error_views(errors@) + no_issues()); }
        },
    }
    let ghost e2 = error_views(errors@);
    match &b.slack_signing_secret {
        Some(secret) => {
            let t = trim_str(secret.as_str());
            if t.len() == 0 {
                push_error(errors, "bot.slack_signing_secret".to_string(),
                    "Slack signing secret cannot be empty".to_string(), None);
            } else {
                proof { assert(error_views(errors@) =~= error_views(errors@) + no_issues()); }
            }
        },
        None => {
            proof { assert(error_views(errors@) =~= error_views(errors@) + no_issues()); }
        },
    }
    if b.authorized_users.len() == 0 && !b.allow_all_users {
        push_warning(warnings, "bot.authorized_users".to_string(),
            "No authorized users configured; commands will be rejected".to_string());
    } else {
        proof { assert(warning_views(warnings@) =~= warning_views(warnings@) + no_notices()); }
    }
    check_users(&b.authorized_users, errors);
    proof {
        assert(error_views(errors@) =~= e0 + bot_issues(*c));
    }
}

fn check_log_level(c: &Config, errors: &mut Vec<ValidationError>)
    ensures
        error_views(final(errors)@) == error_views(old(errors)@)
            + log_level_issues(unicode_lowercase(trim(c.daemon.log_level@))),
{
    let t = trim_str(c.daemon.log_level.as_str());
    let ts = string_from_chars(t.as_slice());
    let lowered = to_lowercase_string(ts.as_str());
    match log_level_error(lowered.as_str()) {
        Some(e) => {
            errors.push(e);
            proof { assert(error_views(final(errors)@) =~= error_views(old(errors)@) + seq![e@]); }
        },
        None => {
            proof { assert(error_views(errors@) =~= error_views(errors@) + no_issues()); }
        },
    }
}

fn check_port(c: &Config, errors: &mut Vec<ValidationError>, warnings: &mut Vec<ValidationWarning>)
    ensures
        error_views(final(errors)@) == error_views(old(errors)@) + port_issues(*c),
        warning_views(final(warnings)@) == warning_views(old(warnings)@) + port_notices(*c),
{
    if c.daemon.http_port == 0 {
        push_error(errors, "daemon.http_port".to_string(), "HTTP port must be between 1 and 65535".to_string(),
            Some("Use a port between 1 and 65535".to_string()));
    } else {
        proof { assert(error_views(errors@) =~= error_views(errors@) + no_issues()); }
    }
    if c.daemon.http_enabled && c.daemon.http_port < 1024 {
        let port = u64_to_string(c.daemon.http_port as u64);
        push_warning(warnings, "daemon.http_port".to_string(),
            str_cat3("Port ", port.as_str(), " requires elevated privileges on most systems"));
    } else {
        proof { assert(warning_views(warnings@) =~= warning_views(warnings@) + no_notices()); }
    }
}

fn check_monitoring(c: &Config, errors: &mut Vec<ValidationError>)
    ensures
        error_views(final(errors)@) == error_views(old(errors)@) + monitoring_issues(*c),
{
    if c.monitoring.debounce_ms == 0 {
        push_error(errors, "monitoring.debounce_ms".to_string(), "Debounce duration must be positive".to_string(),
            Some("Use a value of at least 1 ms".to_string()));
    }
    if c.monitoring.auto_detect_interval_secs == 0 {
        push_error(errors, "monitoring.auto_detect_interval_secs".to_string(),
            "Auto-detect interval must be positive".to_string(), Some("Use a value of at least 1 second".to_string()));
    }
    match c.monitoring.poll_interval_secs {
        Some(poll) => {
            if poll == 0 {
                push_error(errors, "monitoring.poll_interval_secs".to_string(),
                    "Polling interval must be positive".to_string(),
                    Some("Use a value of at least 1 second".to_string()));
            }
        },
        None => {},
    }
    proof { assert(error_views(errors@) =~= error_views(old(errors)@) + monitoring_issues(*c)); }
}

fn check_resume(c: &Config, errors: &mut Vec<ValidationError>, warnings: &mut Vec<ValidationWarning>)
    ensures
        error_views(final(errors)@) == error_views(old(errors)@) + resume_issues(*c),
        warning_views(final(warnings)@) == warning_views(old(warnings)@) + resume_notices(*c),
{
    if c.resume.base_delay_secs == 0 {
        push_error(errors, "resume.base_delay_secs".to_string(), "Base delay cannot be zero".to_string(),
            Some("Use a value of at least 1 second".to_string()));
    }
    if c.resume.max_delay_secs == 0 {
        push_error(errors, "resume.max_delay_secs".to_string(), "Max delay cannot be zero".to_string(),
            Some("Use a value of at least 1 second".to_string()));
    }
    if c.resume.max_delay_secs < c.resume.base_delay_secs {
        push_error(errors, "resume.max_delay_secs".to_string(),
            "Max delay cannot be less than base delay".to_string(), None);
    }
    proof { assert(error_views(errors@) =~= error_views(old(errors)@) + resume_issues(*c)); }
    if c.resume.enabled && c.resume.max_retries == 0 {
        push_warning(warnings, "resume.max_retries".to_string(),
            "Resume enabled but max_retries is 0 (will never retry)".to_string());
    } else {
        proof { assert(warning_views(warnings@) =~= warning_views(warnings@) + no_notices()); }
    }
}

fn check_notifications(c: &Config, errors: &mut Vec<ValidationError>)
    ensures
        error_views(final(errors)@) == error_views(old(errors)@) + notification_issues(*c),
{
    let webhook_url: Option<String> = match &c.notifications.webhook {
        Some(w) => Some(w.url.clone()),
        None => None,
    };
    check_url("notifications.webhook.url", "Webhook URL must start with http:// or https://", &webhook_url,
        errors);
    let ghost e1 = error_views(errors@);
    match &c.notifications.ntfy {
        Some(n) => {
            let topic = trim_str(n.topic.as_str());
            if topic.len() == 0 {
                push_error(errors, "notifications.ntfy.topic".to_string(), "ntfy topic cannot be empty".to_string(),
                    None);
            } else {
                proof { assert(error_views(errors@) =~= error_views(errors@) + no_issues()); }
            }
            check_url("notifications.ntfy.server", "ntfy server must start with http:// or https://", &n.server,
                errors);
        },
        None => {
            proof { assert(error_views(errors@) =~= error_views(errors@) + no_issues()); }
        },
    }
    let endpoint: Option<String> = match &c.otel {
        Some(o) => crate::config::schema::clone_opt_string(&o.endpoint),
        None => None,
    };
    check_url("otel.endpoint", "OpenTelemetry endpoint must start with http:// or https://", &endpoint, errors);
    proof { assert(error_views(errors@) =~= error_views(old(errors)@) + notification_issues(*c)); }
}

/// Validates a configuration against the given file-system facts of its
/// paths, reporting every error and warning in order.
pub fn validate_config_with(config: &Config, facts: &ConfigPathFacts) -> (r: ValidationResult)
    ensures
        error_views(r.errors@) == config_issues(*config, *facts),
        warning_views(r.warnings@) == config_notices(*config, *facts),
{
    let mut errors: Vec<ValidationError> = Vec::new();
    let mut warnings: Vec<ValidationWarning> = Vec::new();
    let c = config;
    proof {
        assert(error_views(errors@) =~= no_issues());
        assert(warning_views(warnings@) =~= no_notices());
    }
    check_log_level(c, &mut errors);
    check_port(c, &mut errors, &mut warnings);
    check_file_path("daemon.pid_file", &c.daemon.pid_file, &facts.pid_file, &mut errors, &mut warnings);
    check_file_path("daemon.socket_path", &c.daemon.socket_path, &facts.socket_path, &mut errors, &mut warnings);
    check_file_path("daemon.log_file", &c.daemon.log_file, &facts.log_file, &mut errors, &mut warnings);
    check_dir_path("monitoring.session_dir", c.monitoring.session_dir.as_str(), &facts.session_dir, &mut errors,
        &mut warnings);
    check_monitoring(c, &mut errors);
    check_resume(c, &mut errors, &mut warnings);
    check_notifications(c, &mut errors);
    check_bot(c, &mut errors, &mut warnings);
    proof {
        assert(error_views(errors@) =~= config_issues(*c, *facts));
        assert(warning_views(warnings@) =~= config_notices(*c, *facts));
    }
    ValidationResult { errors, warnings }
}

/// Looks up the file-system facts of the configuration's paths.
pub fn probe_config_paths(config: &Config) -> (r: ConfigPathFacts)
    ensures
        config_facts_for(*config, r),
{
    ConfigPathFacts {
        pid_file: probe_opt_path(&config.daemon.pid_file),
        socket_path: probe_opt_path(&config.daemon.socket_path),
        log_file: probe_opt_path(&config.daemon.log_file),
        session_dir: probe_path(config.monitoring.session_dir.as_str()),
    }
}

/// Validates a configuration, looking its paths up in the file system.
/// Whatever the file system holds, the result lists exactly the errors and
/// warnings of the configuration for some facts that describe its paths.
pub fn validate_config(config: &Config) -> (r: ValidationResult)
    ensures
        exists|f: ConfigPathFacts|
            config_facts_for(*config, f)
            && error_views(r.errors@) == #[trigger] config_issues(*config, f)
            && warning_views(r.warnings@) == config_notices(*config, f),
{
    let facts = probe_config_paths(config);
    let r = validate_config_with(config, &facts);
    proof {
        assert(config_facts_for(*config, facts) && error_views(r.errors@) == config_issues(*config, facts)
            && warning_views(r.warnings@) == config_notices(*config, facts));
    }
    r
}

} // verus!
