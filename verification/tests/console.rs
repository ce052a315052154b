use palingenesis::config::schema::Config;
use palingenesis::console::{pause_outcome, status_failure, status_lines, stop_step, CommandOutcome, StopStep};
use palingenesis::daemon::state::{DaemonState, DaemonStatus};
use palingenesis::ipc::client::IpcClientError;

#[test]
fn pause_outcomes() {
    assert!(matches!(pause_outcome(Ok(())), CommandOutcome::Printed(t) if t == "Monitoring paused"));
    assert!(matches!(
        pause_outcome(Err(IpcClientError::Protocol("daemon ALREADY paused".to_string()))),
        CommandOutcome::Printed(t) if t == "Already paused"
    ));
    assert!(matches!(
        pause_outcome(Err(IpcClientError::NotRunning)),
        CommandOutcome::Exit { message, code: 1 } if message == "Daemon not running"
    ));
    assert!(matches!(pause_outcome(Err(IpcClientError::Protocol("x".to_string()))), CommandOutcome::Failed(_)));
    assert!(matches!(
        status_failure(IpcClientError::Timeout),
        CommandOutcome::Exit { message, code: 1 } if message == "Daemon unresponsive"
    ));
}

#[test]
fn status_text_lines() {
    let status = DaemonStatus {
        state: "monitoring".to_string(),
        uptime_secs: 3725,
        current_session: None,
        saves_count: 2,
        total_resumes: 5,
    };
    let lines = status_lines(&status, Some(42), "0 seconds");
    assert_eq!(
        lines,
        vec![
            "palingenesis daemon: running",
            "PID: 42",
            "State: monitoring",
            "Uptime: 1h 2m 5s",
            "Current session: none",
            "Saves: 2",
            "Total resumes: 5",
            "Time saved: 0 seconds",
        ]
    );
    assert_eq!(status_lines(&status, None, "x").len(), 7);
}

#[test]
fn stopping_waits_then_kills() {
    assert_eq!(stop_step(0, false), StopStep::Stopped);
    assert_eq!(stop_step(3, true), StopStep::Wait);
    assert_eq!(stop_step(50, true), StopStep::Kill);
}

#[test]
fn daemon_without_auto_detection() {
    let state = DaemonState::new_without_auto_detection(Config::default());
    assert!(!state.auto_detect_active());
    assert!(!state.is_paused());
}
