//! Configuration schema with its defaults.
//!
//! Paths are held as text. Sections whose defaults depend on the user's
//! directories are built from those directories, which the caller supplies.

use vstd::prelude::*;

use crate::config::paths::{join_path, path_join, runtime_dir_spec, Paths};
use crate::text::{dec, opt_text, str_cat, u64_to_string};

verus! {

/// Copies an optional string.
pub fn clone_opt_string(o: &Option<String>) -> (r: Option<String>)
    ensures
        r == *o,
{
    match o {
        Some(s) => Some(s.clone()),
        None => None,
    }
}

/// Copies a vector of strings.
pub fn clone_strings(v: &Vec<String>) -> (r: Vec<String>)
    ensures
        r@ == v@,
{
    let mut out: Vec<String> = Vec::new();
    let mut i: usize = 0;
    while i < v.len()
        invariant
            i <= v@.len(),
            out@ == v@.take(i as int),
        decreases v@.len() - i,
    {
        out.push(v[i].clone());
        proof { assert(v@.take(i as int + 1) =~= v@.take(i as int).push(v@[i as int])); }
        i = i + 1;
    }
    proof { assert(v@.take(v@.len() as int) =~= v@); }
    out
}

/// Daemon process configuration.
pub struct DaemonConfig {
    /// Path to the PID file.
    pub pid_file: Option<String>,
    /// Path to the Unix socket.
    pub socket_path: Option<String>,
    /// Whether the HTTP control API is enabled.
    pub http_enabled: bool,
    /// HTTP server port.
    pub http_port: u16,
    /// HTTP server bind address.
    pub http_bind: String,
    /// Log level (trace, debug, info, warn, error).
    pub log_level: String,
    /// Optional log file path.
    pub log_file: Option<String>,
}

impl Clone for DaemonConfig {
    fn clone(&self) -> (r: Self)
        ensures
            r == *self,
    {
        DaemonConfig {
            pid_file: clone_opt_string(&self.pid_file),
            socket_path: clone_opt_string(&self.socket_path),
            http_enabled: self.http_enabled,
            http_port: self.http_port,
            http_bind: self.http_bind.clone(),
            log_level: self.log_level.clone(),
            log_file: clone_opt_string(&self.log_file),
        }
    }
}

impl DaemonConfig {
    /// The default daemon section, with the PID file and socket placed in
    /// `runtime_dir`.
    pub fn for_runtime_dir(runtime_dir: &str) -> (r: Self)
        ensures
            r.pid_file matches Some(p) && p@ == path_join(runtime_dir@, "palingenesis.pid"@),
            r.socket_path matches Some(p) && p@ == path_join(runtime_dir@, "palingenesis.sock"@),
            !r.http_enabled,
            r.http_port == 7654,
            r.http_bind@ == "127.0.0.1"@,
            r.log_level@ == "info"@,
            r.log_file is None,
    {
        DaemonConfig {
            pid_file: Some(join_path(runtime_dir, "palingenesis.pid")),
            socket_path: Some(join_path(runtime_dir, "palingenesis.sock")),
            http_enabled: false,
            http_port: 7654,
            http_bind: "127.0.0.1".to_string(),
            log_level: "info".to_string(),
            log_file: None,
        }
    }
}

/// Session monitoring configuration.
pub struct MonitoringConfig {
    /// Directory watched for session files.
    pub session_dir: String,
    /// Explicit list of assistants to monitor.
    pub assistants: Vec<String>,
    /// Auto-detect running assistants.
    pub auto_detect: bool,
    /// Auto-detect re-scan interval (seconds).
    pub auto_detect_interval_secs: u64,
    /// Debounce time for file events (milliseconds).
    pub debounce_ms: u64,
    /// Polling interval fallback (seconds).
    pub poll_interval_secs: Option<u64>,
}

impl MonitoringConfig {
    /// Field-wise equality, with the assistant list compared by contents.
    pub open spec fn same(self, other: Self) -> bool {
        &&& self.session_dir == other.session_dir
        &&& self.assistants@ == other.assistants@
        &&& self.auto_detect == other.auto_detect
        &&& self.auto_detect_interval_secs == other.auto_detect_interval_secs
        &&& self.debounce_ms == other.debounce_ms
        &&& self.poll_interval_secs == other.poll_interval_secs
    }

    /// The default monitoring section, watching `<home_dir>/.opencode`.
    pub fn for_home_dir(home_dir: &str) -> (r: Self)
        ensures
            r.session_dir@ == path_join(home_dir@, ".opencode"@),
            r.assistants@.len() == 0,
            r.auto_detect,
            r.auto_detect_interval_secs == 300,
            r.debounce_ms == 100,
            r.poll_interval_secs is None,
    {
        MonitoringConfig {
            session_dir: join_path(home_dir, ".opencode"),
            assistants: Vec::new(),
            auto_detect: true,
            auto_detect_interval_secs: 300,
            debounce_ms: 100,
            poll_interval_secs: None,
        }
    }
}

impl Clone for MonitoringConfig {
    fn clone(&self) -> (r: Self)
        ensures
            r.same(*self),
    {
        MonitoringConfig {
            session_dir: self.session_dir.clone(),
            assistants: clone_strings(&self.assistants),
            auto_detect: self.auto_detect,
            auto_detect_interval_secs: self.auto_detect_interval_secs,
            debounce_ms: self.debounce_ms,
            poll_interval_secs: self.poll_interval_secs,
        }
    }
}

/// Resume strategy configuration.
#[derive(Clone, Copy, PartialEq, Eq, Structural)]
pub struct ResumeConfig {
    pub enabled: bool,
    pub base_delay_secs: u64,
    pub max_delay_secs: u64,
    pub max_retries: u32,
    pub jitter: bool,
    pub backup_count: u32,
}

impl Default for ResumeConfig {
    fn default() -> (r: Self)
        ensures
            r.enabled,
            r.base_delay_secs == 30,
            r.max_delay_secs == 300,
            r.max_retries == 10,
            r.jitter,
            r.backup_count == 10,
    {
        ResumeConfig {
            enabled: true,
            base_delay_secs: 30,
            max_delay_secs: 300,
            max_retries: 10,
            jitter: true,
            backup_count: 10,
        }
    }
}

/// Webhook notification configuration.
pub struct WebhookConfig {
    pub url: String,
    /// Custom headers, as (name, value) pairs.
    pub headers: Option<Vec<(String, String)>>,
}

/// ntfy.sh notification configuration.
pub struct NtfyConfig {
    pub topic: String,
    pub server: Option<String>,
    pub priority: Option<String>,
}

/// Discord webhook notification configuration.
pub struct DiscordConfig {
    pub webhook_url: String,
}

/// Slack webhook notification configuration.
pub struct SlackConfig {
    pub webhook_url: String,
}

/// Notification channel configuration.
pub struct NotificationsConfig {
    pub enabled: bool,
    pub webhook: Option<WebhookConfig>,
    pub ntfy: Option<NtfyConfig>,
    pub discord: Option<DiscordConfig>,
    pub slack: Option<SlackConfig>,
}

impl Default for NotificationsConfig {
    fn default() -> (r: Self)
        ensures
            !r.enabled,
            r.webhook is None,
            r.ntfy is None,
            r.discord is None,
            r.slack is None,
    {
        NotificationsConfig { enabled: false, webhook: None, ntfy: None, discord: None, slack: None }
    }
}

/// OpenTelemetry configuration.
pub struct OtelConfig {
    pub enabled: bool,
    pub endpoint: Option<String>,
    pub service_name: String,
    pub traces: bool,
    pub metrics: bool,
    /// Whether the metrics HTTP endpoint is served.
    pub metrics_enabled: bool,
    /// Export protocol (`http` or `grpc`).
    pub protocol: String,
}

impl Default for OtelConfig {
    fn default() -> (r: Self)
        ensures
            !r.enabled,
            r.endpoint is None,
            r.service_name@ == "palingenesis"@,
            r.traces,
            r.metrics,
            r.metrics_enabled,
            r.protocol@ == "http"@,
    {
        OtelConfig {
            enabled: false,
            endpoint: None,
            service_name: "palingenesis".to_string(),
            traces: true,
            metrics: true,
            metrics_enabled: true,
            protocol: "http".to_string(),
        }
    }
}

impl Clone for OtelConfig {
    fn clone(&self) -> (r: Self)
        ensures
            r == *self,
    {
        OtelConfig {
            enabled: self.enabled,
            endpoint: clone_opt_string(&self.endpoint),
            service_name: self.service_name.clone(),
            traces: self.traces,
            metrics: self.metrics,
            metrics_enabled: self.metrics_enabled,
            protocol: self.protocol.clone(),
        }
    }
}

/// OpenCode process monitoring configuration.
pub struct OpenCodeConfig {
    pub enabled: bool,
    pub serve_port: u16,
    pub serve_hostname: String,
    pub auto_restart: bool,
    pub restart_delay_ms: u64,
    pub health_check_interval: u64,
    pub health_port: u16,
    pub poll_interval_ms: u64,
    pub health_timeout_ms: u64,
}

impl Default for OpenCodeConfig {
    fn default() -> (r: Self)
        ensures
            !r.enabled,
            r.serve_port == 4096,
            r.serve_hostname@ == "localhost"@,
            r.auto_restart,
            r.restart_delay_ms == 1000,
            r.health_check_interval == 1000,
            r.health_port == 4096,
            r.poll_interval_ms == 1000,
            r.health_timeout_ms == 2000,
    {
        OpenCodeConfig {
            enabled: false,
            serve_port: 4096,
            serve_hostname: "localhost".to_string(),
            auto_restart: true,
            restart_delay_ms: 1000,
            health_check_interval: 1000,
            health_port: 4096,
            poll_interval_ms: 1000,
            health_timeout_ms: 2000,
        }
    }
}

/// MCP server configuration.
pub struct McpConfig {
    pub enabled: bool,
    pub protocol_version: String,
    pub instructions: Option<String>,
}

impl Default for McpConfig {
    fn default() -> (r: Self)
        ensures
            r.enabled,
            r.protocol_version@ == "2024-11-05"@,
            r.instructions is None,
    {
        McpConfig { enabled: true, protocol_version: "2024-11-05".to_string(), instructions: None }
    }
}

/// Chat platform a bot command arrives from.
#[derive(Clone, Copy, PartialEq, Eq, Structural, Debug)]
pub enum BotPlatform {
    Discord,
    Slack,
}

/// A user allowed to run bot commands on one platform.
pub struct AuthorizedUser {
    pub platform: BotPlatform,
    pub user_id: String,
}

/// Chat bot command configuration.
pub struct BotConfig {
    pub enabled: bool,
    pub allow_all_users: bool,
    pub discord_application_id: Option<String>,
    pub discord_public_key: Option<String>,
    pub slack_signing_secret: Option<String>,
    pub authorized_users: Vec<AuthorizedUser>,
}

impl Default for BotConfig {
    fn default() -> (r: Self)
        ensures
            !r.enabled,
            !r.allow_all_users,
            r.discord_application_id is None,
            r.discord_public_key is None,
            r.slack_signing_secret is None,
            r.authorized_users@.len() == 0,
    {
        BotConfig {
            enabled: false,
            allow_all_users: false,
            discord_application_id: None,
            discord_public_key: None,
            slack_signing_secret: None,
            authorized_users: Vec::new(),
        }
    }
}

/// Root configuration.
pub struct Config {
    pub daemon: DaemonConfig,
    pub monitoring: MonitoringConfig,
    pub resume: ResumeConfig,
    pub notifications: NotificationsConfig,
    pub otel: Option<OtelConfig>,
    pub opencode: OpenCodeConfig,
    pub mcp: McpConfig,
    pub bot: BotConfig,
}

/// Every field of a configuration other than its three directory-dependent
/// paths has its default value.
pub open spec fn has_default_settings(r: Config) -> bool {
    &&& !r.daemon.http_enabled
    &&& r.daemon.http_port == 7654
    &&& r.daemon.http_bind@ == "127.0.0.1"@
    &&& r.daemon.log_level@ == "info"@
    &&& r.daemon.log_file is None
    &&& r.monitoring.assistants@.len() == 0
    &&& r.monitoring.auto_detect
    &&& r.monitoring.auto_detect_interval_secs == 300
    &&& r.monitoring.debounce_ms == 100
    &&& r.monitoring.poll_interval_secs is None
    &&& r.resume == (ResumeConfig {
        enabled: true,
        base_delay_secs: 30,
        max_delay_secs: 300,
        max_retries: 10,
        jitter: true,
        backup_count: 10,
    })
    &&& !r.notifications.enabled
    &&& r.notifications.webhook is None
    &&& r.notifications.ntfy is None
    &&& r.notifications.discord is None
    &&& r.notifications.slack is None
    &&& r.otel is None
    &&& !r.opencode.enabled
    &&& r.opencode.serve_port == 4096
    &&& r.opencode.serve_hostname@ == "localhost"@
    &&& r.opencode.auto_restart
    &&& r.opencode.restart_delay_ms == 1000
    &&& r.opencode.health_check_interval == 1000
    &&& r.opencode.health_port == 4096
    &&& r.opencode.poll_interval_ms == 1000
    &&& r.opencode.health_timeout_ms == 2000
    &&& r.mcp.enabled
    &&& r.mcp.protocol_version@ == "2024-11-05"@
    &&& r.mcp.instructions is None
    &&& !r.bot.enabled
    &&& !r.bot.allow_all_users
    &&& r.bot.discord_application_id is None
    &&& r.bot.discord_public_key is None
    &&& r.bot.slack_signing_secret is None
    &&& r.bot.authorized_users@.len() == 0
}

/// The directory-dependent paths are those of the given runtime and home
/// directories.
pub open spec fn has_paths_for(r: Config, runtime_dir: Seq<char>, home_dir: Seq<char>) -> bool {
    &&& r.daemon.pid_file matches Some(p) && p@ == path_join(runtime_dir, "palingenesis.pid"@)
    &&& r.daemon.socket_path matches Some(p) && p@ == path_join(runtime_dir, "palingenesis.sock"@)
    &&& r.monitoring.session_dir@ == path_join(home_dir, ".opencode"@)
}

impl Config {
    /// The default configuration for a user whose runtime directory is
    /// `runtime_dir` and whose home directory is `home_dir`.
    pub fn with_dirs(runtime_dir: &str, home_dir: &str) -> (r: Self)
        ensures
            has_default_settings(r),
            has_paths_for(r, runtime_dir@, home_dir@),
    {
        Config {
            daemon: DaemonConfig::for_runtime_dir(runtime_dir),
            monitoring: MonitoringConfig::for_home_dir(home_dir),
            resume: ResumeConfig::default(),
            notifications: NotificationsConfig::default(),
            otel: None,
            opencode: OpenCodeConfig::default(),
            mcp: McpConfig::default(),
            bot: BotConfig::default(),
        }
    }
}

/// Calls `dirs::runtime_dir` (`$XDG_RUNTIME_DIR` on Linux). What it returns
/// depends on the environment, so nothing is stated of it.
#[verifier::external_body]
pub(crate) fn user_runtime_dir() -> (r: Option<String>) {
    match dirs::runtime_dir() {
        Some(p) => Some(p.to_string_lossy().into_owned()),
        None => None,
    }
}

/// Calls `dirs::home_dir`. What it returns depends on the environment and the
/// user database, so nothing is stated of it.
#[verifier::external_body]
pub(crate) fn user_home_dir() -> (r: Option<String>) {
    match dirs::home_dir() {
        Some(p) => Some(p.to_string_lossy().into_owned()),
        None => None,
    }
}

/// Calls `nix::unistd::getuid`: the real user ID of the process.
#[verifier::external_body]
pub(crate) fn current_uid() -> (r: u32) {
    nix::unistd::getuid().as_raw()
}

/// The runtime directory given where the user's runtime root is (if known)
/// and the user ID: `<root>/palingenesis`, with `/run/user/<uid>` as the root
/// when none is known.
pub open spec fn runtime_dir_for(root: Option<Seq<char>>, uid: u32) -> Seq<char> {
    match root {
        Some(r) => path_join(r, "palingenesis"@),
        None => path_join("/run/user/"@ + dec(uid as nat), "palingenesis"@),
    }
}

/// Computes the runtime directory (see [`runtime_dir_for`]).
pub fn runtime_dir_from(root: Option<String>, uid: u32) -> (r: String)
    ensures
        r@ == runtime_dir_for(opt_text(root), uid),
{
    match root {
        Some(rt) => join_path(rt.as_str(), "palingenesis"),
        None => {
            let id = u64_to_string(uid as u64);
            let base = str_cat("/run/user/", id.as_str());
            join_path(base.as_str(), "palingenesis")
        },
    }
}

impl Config {
    /// The default configuration for the current user under the overrides
    /// of `paths`: the runtime directory is `PALINGENESIS_RUNTIME` when set,
    /// else that of [`runtime_dir_for`] (see [`runtime_dir_spec`]); the home
    /// directory is `.` when it cannot be found.
    pub fn for_paths(paths: &Paths) -> (r: Self)
        ensures
            has_default_settings(r),
            exists|root: Option<Seq<char>>, uid: u32, home: Seq<char>|
                #[trigger] has_paths_for(r, runtime_dir_spec(opt_text(paths.runtime_env), root, uid), home),
    {
        let rt = paths.runtime_dir();
        let home = match user_home_dir() {
            Some(h) => h,
            None => ".".to_string(),
        };
        Config::with_dirs(rt.as_str(), home.as_str())
    }
}

impl Default for Config {
    /// The default configuration for the current user with no directory
    /// override: the runtime directory is that of [`runtime_dir_for`] and
    /// the home directory is `.` when it cannot be found. The environment is
    /// not read here; [`Config::for_paths`] takes its overrides.
    fn default() -> (r: Self)
        ensures
            has_default_settings(r),
            exists|root: Option<Seq<char>>, uid: u32, home: Seq<char>|
                #[trigger] has_paths_for(r, runtime_dir_for(root, uid), home),
    {
        let root = user_runtime_dir();
        let uid = current_uid();
        let ghost root_v = opt_text(root);
        let rt = runtime_dir_from(root, uid);
        let home = match user_home_dir() {
            Some(h) => h,
            None => ".".to_string(),
        };
        let c = Config::with_dirs(rt.as_str(), home.as_str());
        proof { assert(has_paths_for(c, runtime_dir_for(root_v, uid), home@)); }
        c
    }
}

} // verus!
