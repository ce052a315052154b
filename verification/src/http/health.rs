//! The health report.

use vstd::prelude::*;

use crate::daemon::state::DaemonState;
use crate::text::{dec, u64_to_string};

verus! {

/// Overall health.
#[derive(Debug, Clone, Copy, PartialEq, Eq, Structural)]
pub enum HealthStatus {
    /// Nothing to report.
    Healthy,
    /// At least one issue was found.
    Degraded,
}

/// Body of a health report.
#[derive(Debug)]
pub struct HealthResponse {
    pub status: HealthStatus,
    pub uptime: String,
    pub issues: Vec<String>,
}

impl HealthResponse {
    /// A health report with the given parts.
    pub fn new(status: HealthStatus, uptime: String, issues: Vec<String>) -> (r: Self)
        ensures
            r.status == status,
            r.uptime == uptime,
            r.issues == issues,
    {
        HealthResponse { status, uptime, issues }
    }
}

/// Uptime as a short text: days and hours from one day on, hours and
/// minutes from one hour on, minutes from one minute on, else seconds.
pub open spec fn uptime_text(secs: nat) -> Seq<char> {
    let days = secs / 86400;
    let hours = (secs % 86400) / 3600;
    let minutes = (secs % 3600) / 60;
    let seconds = secs % 60;
    if days > 0 {
        dec(days) + "d"@ + dec(hours) + "h"@
    } else if hours > 0 {
        dec(hours) + "h"@ + dec(minutes) + "m"@
    } else if minutes > 0 {
        dec(minutes) + "m"@
    } else {
        dec(seconds) + "s"@
    }
}

/// Formats an uptime of `total_secs` seconds.
pub fn format_uptime(total_secs: u64) -> (r: String)
    ensures
        r@ == uptime_text(total_secs as nat),
{
    let days = total_secs / 86400;
    let hours = (total_secs % 86400) / 3600;
    let minutes = (total_secs % 3600) / 60;
    let seconds = total_secs % 60;
    if days > 0 {
        let mut s = u64_to_string(days);
        s.append("d");
        let h = u64_to_string(hours);
        s.append(h.as_str());
        s.append("h");
        s
    } else if hours > 0 {
        let mut s = u64_to_string(hours);
        s.append("h");
        let m = u64_to_string(minutes);
        s.append(m.as_str());
        s.append("m");
        s
    } else if minutes > 0 {
        let mut s = u64_to_string(minutes);
        s.append("m");
        s
    } else {
        let mut s = u64_to_string(seconds);
        s.append("s");
        s
    }
}

/// The issues a daemon state shows: `paused` while monitoring is paused.
pub open spec fn health_issues(paused: bool) -> Seq<Seq<char>> {
    if paused { seq!["paused"@] } else { Seq::empty() }
}

/// Collects the issues that make the daemon degraded: `paused` while
/// monitoring is paused, `config_unavailable` when no configuration is in
/// force.
pub fn collect_health_issues(state: &DaemonState) -> (r: Vec<String>)
    ensures
        r@.map_values(|s: String| s@) == health_issues(state.paused_spec()),
{
    let mut issues: Vec<String> = Vec::new();
    if state.is_paused() {
        issues.push("paused".to_string());
    }
    if state.daemon_config().is_none() {
        issues.push("config_unavailable".to_string());
    }
    proof {
        if state.paused_spec() {
            assert(issues@.map_values(|s: String| s@) =~= seq!["paused"@]);
        } else {
            assert(issues@.map_values(|s: String| s@) =~= Seq::<Seq<char>>::empty());
        }
    }
    issues
}

/// The health report for a daemon that has been up `uptime_secs` seconds:
/// degraded exactly when there is an issue.
pub fn health_report(state: &DaemonState, uptime_secs: u64) -> (r: HealthResponse)
    ensures
        r.issues@.map_values(|s: String| s@) == health_issues(state.paused_spec()),
        r.status == (if state.paused_spec() { HealthStatus::Degraded } else { HealthStatus::Healthy }),
        r.uptime@ == uptime_text(uptime_secs as nat),
{
    let issues = collect_health_issues(state);
    let status = if issues.len() == 0 { HealthStatus::Healthy } else { HealthStatus::Degraded };
    proof {
        assert(issues@.len() == issues@.map_values(|s: String| s@).len());
    }
    let uptime = format_uptime(uptime_secs);
    HealthResponse::new(status, uptime, issues)
}

/// The health report for the daemon now; its uptime is read from the
/// clock.
pub fn current_health(state: &DaemonState) -> (r: HealthResponse)
    ensures
        r.issues@.map_values(|s: String| s@) == health_issues(state.paused_spec()),
        r.status == (if state.paused_spec() { HealthStatus::Degraded } else { HealthStatus::Healthy }),
{
    let secs = state.uptime_secs();
    health_report(state, secs)
}

} // verus!
