use std::time::Duration;

use palingenesis::config::schema::Config;
use palingenesis::daemon::state::DaemonState;
use palingenesis::http::control::{
    error_response, new_session_daemon, pause_daemon, resume_daemon, ControlErrorResponse, ControlResponse,
    BAD_REQUEST,
};
use palingenesis::http::health::{
    collect_health_issues, current_health, format_uptime, health_report, HealthResponse, HealthStatus,
};
use palingenesis::http::status::status_report;
use palingenesis::monitor::detection::DetectionResult;

fn fresh_state() -> DaemonState {
    DaemonState::new(Config::default(), &DetectionResult { assistants: Vec::new() })
}

#[test]
fn test_format_uptime() {
    assert_eq!(format_uptime(Duration::from_secs(2 * 3600 + 30 * 60).as_secs()), "2h30m");
    assert_eq!(format_uptime(Duration::from_secs(15 * 60).as_secs()), "15m");
    assert_eq!(format_uptime(Duration::from_secs(45).as_secs()), "45s");
    assert_eq!(format_uptime(Duration::from_secs(3 * 86400 + 2 * 3600).as_secs()), "3d2h");
    assert_eq!(format_uptime(Duration::from_secs(86400).as_secs()), "1d0h");
}

#[test]
fn test_collect_health_issues_config_unavailable() {
    let state = fresh_state();
    let issues = collect_health_issues(&state);
    assert!(!issues.contains(&"config_unavailable".to_string()));
}

#[test]
fn format_uptime_of_zero_is_seconds() {
    assert_eq!(format_uptime(0), "0s");
    assert_eq!(format_uptime(59), "59s");
    assert_eq!(format_uptime(60), "1m");
    assert_eq!(format_uptime(3600), "1h0m");
}

#[test]
fn health_is_ok_when_running_and_degraded_when_paused() {
    let mut state = fresh_state();
    let report = current_health(&state);
    assert_eq!(report.status, HealthStatus::Healthy);
    assert!(report.issues.is_empty());
    assert!(!report.uptime.is_empty());

    pause_daemon(&mut state).unwrap();
    let report = health_report(&state, 5400);
    assert_eq!(report.status, HealthStatus::Degraded);
    assert_eq!(report.issues, vec!["paused".to_string()]);
    assert_eq!(report.uptime, "1h30m");
}

#[test]
fn health_response_keeps_its_parts() {
    let response = HealthResponse::new(
        HealthStatus::Degraded,
        "1h30m".to_string(),
        vec!["paused".to_string(), "config_unavailable".to_string()],
    );
    assert_eq!(response.status, HealthStatus::Degraded);
    assert_eq!(response.uptime, "1h30m");
    assert_eq!(response.issues.len(), 2);
}

#[test]
fn pause_twice_reports_already_paused() {
    let mut state = fresh_state();
    assert!(pause_daemon(&mut state).is_ok());
    let err = pause_daemon(&mut state).unwrap_err();
    assert_eq!(err.code, "ALREADY_PAUSED");
    assert_eq!(err.message, "Daemon already paused");
    assert_eq!(err.status, BAD_REQUEST);
    let (status, body) = error_response(&err);
    assert_eq!(status, 400);
    assert!(!body.success);
    assert_eq!(body.error.code, "ALREADY_PAUSED");
}

#[test]
fn resume_when_running_reports_not_paused() {
    let mut state = fresh_state();
    let err = resume_daemon(&mut state).unwrap_err();
    assert_eq!(err.code, "NOT_PAUSED");
    assert_eq!(err.message, "Daemon is not paused");
    assert_eq!(err.status, 400);
    pause_daemon(&mut state).unwrap();
    assert!(resume_daemon(&mut state).is_ok());
    assert!(!state.is_paused());
    assert_eq!(state.get_status().total_resumes, 1);
}

#[test]
fn new_session_returns_a_v4_uuid() {
    let mut state = fresh_state();
    let id = new_session_daemon(&mut state).unwrap();
    assert_eq!(id.len(), 36);
    assert_eq!(&id[14..15], "4");
    assert_eq!(id.matches('-').count(), 4);
    let other = new_session_daemon(&mut state).unwrap();
    assert_ne!(id, other);
    assert_eq!(state.get_status().saves_count, 2);
}

#[test]
fn status_report_reflects_state() {
    let mut state = fresh_state();
    let report = status_report(&state);
    assert!(report.success);
    assert_eq!(report.data.state, "monitoring");
    assert!(report.data.current_session.is_none());
    assert_eq!(report.data.stats.saves_count, 0);
    assert_eq!(report.data.config_summary.http_port, state.config().daemon.http_port);
    pause_daemon(&mut state).unwrap();
    assert_eq!(status_report(&state).data.state, "paused");
}

#[test]
fn control_response_builders() {
    assert!(ControlResponse::success().success);
    let e = ControlErrorResponse::new("X", "y");
    assert!(!e.success);
    assert_eq!(e.error.message, "y");
}
