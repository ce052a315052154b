//! The status report.

use vstd::prelude::*;

use crate::config::schema::{clone_strings, Config, DaemonConfig, MonitoringConfig};
use crate::daemon::state::{DaemonState, DaemonStatus};

verus! {

/// Counters of a status report.
#[derive(Debug, PartialEq, Eq)]
pub struct StatsResponse {
    pub uptime_secs: u64,
    pub saves_count: u64,
    pub total_resumes: u64,
}

impl StatsResponse {
    /// The counters of a daemon status.
    pub fn from_status(status: &DaemonStatus) -> (r: Self)
        ensures
            r.uptime_secs == status.uptime_secs,
            r.saves_count == status.saves_count,
            r.total_resumes == status.total_resumes,
    {
        StatsResponse {
            uptime_secs: status.uptime_secs,
            saves_count: status.saves_count,
            total_resumes: status.total_resumes,
        }
    }
}

/// The parts of the configuration a status report shows.
#[derive(Debug)]
pub struct ConfigSummary {
    pub http_enabled: bool,
    pub http_port: u16,
    pub auto_detect: bool,
    pub assistants: Vec<String>,
}

impl ConfigSummary {
    /// The summary of a daemon and a monitoring section.
    pub fn from_configs(daemon: &DaemonConfig, monitoring: &MonitoringConfig) -> (r: Self)
        ensures
            r.http_enabled == daemon.http_enabled,
            r.http_port == daemon.http_port,
            r.auto_detect == monitoring.auto_detect,
            r.assistants@.map_values(|s: String| s@) == monitoring.assistants@.map_values(|s: String| s@),
    {
        ConfigSummary {
            http_enabled: daemon.http_enabled,
            http_port: daemon.http_port,
            auto_detect: monitoring.auto_detect,
            assistants: clone_strings(&monitoring.assistants),
        }
    }
}

/// A status report.
#[derive(Debug)]
pub struct StatusResponse {
    pub state: String,
    pub current_session: Option<String>,
    pub stats: StatsResponse,
    pub config_summary: ConfigSummary,
}

impl StatusResponse {
    /// The report of a daemon status with a configuration summary.
    pub fn from_status(status: DaemonStatus, config_summary: ConfigSummary) -> (r: Self)
        ensures
            r.state == status.state,
            r.current_session == status.current_session,
            r.stats.uptime_secs == status.uptime_secs,
            r.stats.saves_count == status.saves_count,
            r.stats.total_resumes == status.total_resumes,
            r.config_summary == config_summary,
    {
        let stats = StatsResponse::from_status(&status);
        StatusResponse {
            state: status.state,
            current_session: status.current_session,
            stats,
            config_summary,
        }
    }
}

/// A successful status reply.
#[derive(Debug)]
pub struct StatusEnvelope {
    pub success: bool,
    pub data: StatusResponse,
}

impl StatusEnvelope {
    /// Wraps a status report as a success.
    pub fn new(data: StatusResponse) -> (r: Self)
        ensures
            r.success,
            r.data == data,
    {
        StatusEnvelope { success: true, data }
    }
}

/// The configuration summary of a daemon's state.
pub fn build_config_summary(state: &DaemonState) -> (r: ConfigSummary)
    ensures
        r.http_enabled == state.config_spec().daemon.http_enabled,
        r.http_port == state.config_spec().daemon.http_port,
        r.auto_detect == state.config_spec().monitoring.auto_detect,
        r.assistants@.map_values(|s: String| s@)
            == state.config_spec().monitoring.assistants@.map_values(|s: String| s@),
{
    let daemon_config = match state.daemon_config() {
        Some(d) => d,
        None => Config::default().daemon,
    };
    let monitoring_config = match state.monitoring_config() {
        Some(m) => m,
        None => Config::default().monitoring,
    };
    ConfigSummary::from_configs(&daemon_config, &monitoring_config)
}

/// The status reply for a daemon's state.
pub fn status_report(state: &DaemonState) -> (r: StatusEnvelope)
    ensures
        r.success,
        r.data.state@ == if state.paused_spec() { "paused"@ } else { "monitoring"@ },
        r.data.current_session is None,
        r.data.stats.saves_count == state.sessions_spec(),
        r.data.stats.total_resumes == state.resumes_spec(),
        r.data.config_summary.http_enabled == state.config_spec().daemon.http_enabled,
        r.data.config_summary.http_port == state.config_spec().daemon.http_port,
        r.data.config_summary.auto_detect == state.config_spec().monitoring.auto_detect,
        r.data.config_summary.assistants@.map_values(|s: String| s@)
            == state.config_spec().monitoring.assistants@.map_values(|s: String| s@),
{
    let status = state.get_status();
    let summary = build_config_summary(state);
    StatusEnvelope::new(StatusResponse::from_status(status, summary))
}

} // verus!
