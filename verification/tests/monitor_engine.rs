use palingenesis::monitor::classifier::{ClassifierConfig, StopReason};
use palingenesis::monitor::engine::{Monitor, SendOutcome};
use palingenesis::monitor::process::{ProcessEvent, ProcessInfo};
use palingenesis::monitor::session::{SessionState, StepValue};
use palingenesis::monitor::sessions::{MonitorEvent, SessionParser};
use palingenesis::monitor::watcher::WatchEvent;

fn state(status: &str) -> SessionState {
    SessionState {
        steps_completed: vec![StepValue::Integer(1), StepValue::String("two".to_string())],
        last_step: Some(3),
        status: Some(status.to_string()),
        workflow_type: None,
        project_name: Some("demo".to_string()),
        input_documents: vec![],
    }
}

fn info(pid: u32) -> ProcessInfo {
    ProcessInfo { pid, command_line: vec!["opencode".to_string()], start_time: None, working_dir: None }
}

#[test]
fn parser_reports_previous_state_of_a_file() {
    let mut parser = SessionParser::new();
    let first = parser.handle_event(WatchEvent::FileCreated("/s/a.md".to_string()), Some(Ok(state("in-progress"))));
    match first {
        Some(MonitorEvent::SessionChanged { session, previous }) => {
            assert_eq!(session.path, "/s/a.md");
            assert!(previous.is_none());
        }
        other => panic!("unexpected {other:?}"),
    }
    let second = parser.handle_event(WatchEvent::FileModified("/s/a.md".to_string()), Some(Ok(state("complete"))));
    match second {
        Some(MonitorEvent::SessionChanged { session, previous }) => {
            assert!(session.is_complete());
            assert_eq!(previous.unwrap().state.status.as_deref(), Some("in-progress"));
        }
        other => panic!("unexpected {other:?}"),
    }
    assert!(parser.handle_event(WatchEvent::FileDeleted("/s/a.md".to_string()), None).is_none());
    match parser.handle_event(WatchEvent::FileCreated("/s/a.md".to_string()), Some(Ok(state("x")))) {
        Some(MonitorEvent::SessionChanged { previous, .. }) => assert!(previous.is_none()),
        other => panic!("unexpected {other:?}"),
    }
}

#[test]
fn parser_reports_errors_as_recoverable() {
    let mut parser = SessionParser::new();
    match parser.handle_event(WatchEvent::FileModified("/s/b.md".to_string()), Some(Err("bad yaml".to_string()))) {
        Some(MonitorEvent::Error { source, message, recoverable }) => {
            assert_eq!(source, "session_parser");
            assert_eq!(message, "bad yaml");
            assert!(recoverable);
        }
        other => panic!("unexpected {other:?}"),
    }
    match parser.handle_event(WatchEvent::Error("lost".to_string()), None) {
        Some(MonitorEvent::Error { source, .. }) => assert_eq!(source, "watcher"),
        other => panic!("unexpected {other:?}"),
    }
    assert!(parser.handle_event(WatchEvent::DirectoryCreated("/s".to_string()), None).is_none());
}

#[test]
fn monitor_tracks_the_current_session() {
    let mut monitor = Monitor::with_config(ClassifierConfig::default()).unwrap();
    monitor.handle_watch_event(WatchEvent::FileCreated("/s/a.md".to_string()), Some(Ok(state("in-progress"))));
    let events = monitor.handle_process_event(
        ProcessEvent::ProcessStopped { info: info(7), exit_code: Some(0) },
        Ok("Error: 429 Too Many Requests"),
        Some(&state("in-progress")),
    );
    assert_eq!(events.len(), 2);
    assert!(matches!(&events[0], MonitorEvent::ProcessStopped { info, exit_code: Some(0) } if info.pid == 7));
    match &events[1] {
        MonitorEvent::SessionStopped { session, classification, process_info } => {
            assert_eq!(session.as_ref().unwrap().path, "/s/a.md");
            assert!(matches!(classification.reason, StopReason::RateLimit(_)));
            assert_eq!(process_info.as_ref().unwrap().pid, 7);
        }
        other => panic!("unexpected {other:?}"),
    }

    monitor.handle_watch_event(WatchEvent::FileDeleted("/s/a.md".to_string()), None);
    let events = monitor.handle_process_event(
        ProcessEvent::ProcessStopped { info: info(8), exit_code: None },
        Err("ignored"),
        None,
    );
    match &events[1] {
        MonitorEvent::SessionStopped { session, .. } => assert!(session.is_none()),
        other => panic!("unexpected {other:?}"),
    }
}

#[test]
fn monitor_counts_errors_and_dropped_events() {
    let mut monitor = Monitor::with_config(ClassifierConfig::default()).unwrap();
    monitor.handle_watch_event(WatchEvent::Error("boom".to_string()), None);
    monitor.handle_watch_event(WatchEvent::FileModified("/s/c.md".to_string()), Some(Err("bad".to_string())));
    assert_eq!(monitor.errors_count(), 2);
    assert!(monitor.record_send(SendOutcome::Sent));
    assert!(!monitor.record_send(SendOutcome::Full));
    assert!(!monitor.record_send(SendOutcome::Closed));
    assert_eq!(monitor.dropped_events(), 1);
    let started = monitor.handle_process_event(ProcessEvent::ProcessStarted(info(3)), Err("x"), None);
    assert!(matches!(&started[..], [MonitorEvent::ProcessStarted { info }] if info.pid == 3));
}

#[test]
fn monitor_with_config_fails_on_a_bad_pattern() {
    assert!(Monitor::with_config(ClassifierConfig::default()).is_ok());
    let mut config = ClassifierConfig::default();
    config.extra_rate_limit_patterns.push("(unclosed".to_string());
    assert!(Monitor::with_config(config).is_err());
}
