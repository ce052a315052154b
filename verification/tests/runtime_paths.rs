use palingenesis::bot::commands::truncate;
use palingenesis::config::env::{apply_env_overrides, EnvVars};
use palingenesis::config::paths::Paths;
use palingenesis::config::schema::Config;
use palingenesis::daemon::pid::{proc_path, stale_from, PidError, PidFile};
use palingenesis::ipc::client::{parse_response, ReplyLine};
use palingenesis::ipc::protocol::{reply_line, IpcResponse};
use palingenesis::monitor::process::{ProcessInfo, ProcessTracker};
use palingenesis::opencode::process::{exit_event, OpenCodeEvent, OpenCodeExitReason, OpenCodeStep, OpenCodeTracker};

fn runtime_paths(dir: &str) -> Paths {
    Paths::new(None, None, Some(dir.to_string()))
}

#[test]
fn pid_file_honours_the_runtime_override() {
    let file = PidFile::new(&runtime_paths("/tmp/d"));
    assert_eq!(file.path(), "/tmp/d/palingenesis.pid");
}

#[test]
fn default_config_honours_the_runtime_override() {
    let config = Config::for_paths(&runtime_paths("/tmp/d"));
    assert_eq!(config.daemon.pid_file.as_deref(), Some("/tmp/d/palingenesis.pid"));
    assert_eq!(config.daemon.socket_path.as_deref(), Some("/tmp/d/palingenesis.sock"));
}

#[test]
fn proc_path_names_the_process_entry() {
    assert_eq!(proc_path(42), "/proc/42");
    assert_eq!(proc_path(0), "/proc/0");
}

#[test]
fn staleness_is_the_negation_of_running() {
    assert!(matches!(stale_from(Ok(5), true), Ok(false)));
    assert!(matches!(stale_from(Ok(5), false), Ok(true)));
    assert!(matches!(stale_from(Err(PidError::Parse("x".to_string())), false), Err(PidError::Parse(m)) if m == "x"));
}

#[test]
fn check_stale_asks_whether_the_process_runs() {
    let file = PidFile::with_path("/tmp/unused.pid".to_string());
    assert!(matches!(file.check_stale(Ok(u32::MAX)), Ok(true)));
    assert!(matches!(file.check_stale(Ok(1)), Ok(false)));
}

#[test]
fn override_errors_read_as_invalid() {
    let mut config = Config::default();
    let env = EnvVars { vars: vec![("PALINGENESIS_HTTP_PORT".to_string(), "abc".to_string())] };
    let err = apply_env_overrides(&mut config, &env).unwrap_err();
    assert_eq!(err.to_string(), "PALINGENESIS_HTTP_PORT is invalid: invalid digit found in string");
    assert_eq!(config.daemon.http_port, 7654);

    let env = EnvVars { vars: vec![("PALINGENESIS_HTTP_PORT".to_string(), "70000".to_string())] };
    let err = apply_env_overrides(&mut config, &env).unwrap_err();
    assert_eq!(err.to_string(), "PALINGENESIS_HTTP_PORT is invalid: number too large to fit in target type");

    let env = EnvVars { vars: vec![("PALINGENESIS_HTTP_ENABLED".to_string(), "yes".to_string())] };
    let err = apply_env_overrides(&mut config, &env).unwrap_err();
    assert_eq!(err.to_string(), "PALINGENESIS_HTTP_ENABLED must be true/false");
}

#[test]
fn truncation_at_small_limits_has_no_ellipsis() {
    assert_eq!(truncate("abcdef", 3), "abc");
    assert_eq!(truncate("abcdef", 0), "");
    assert_eq!(truncate("abcdef", 5), "ab...");
    assert_eq!(truncate("abc", 3), "abc");
}

#[test]
fn reply_lines_read_back() {
    let ok = reply_line(&IpcResponse::Success).unwrap();
    assert!(matches!(parse_response(&ok), Ok(ReplyLine::Success)));
    let err = reply_line(&IpcResponse::Error { message: "Daemon already paused".to_string() }).unwrap();
    assert!(matches!(parse_response(&err), Ok(ReplyLine::Error { message }) if message == "Daemon already paused"));
}

fn info(pid: u32, dir: &str) -> ProcessInfo {
    ProcessInfo {
        pid,
        command_line: vec!["opencode".to_string(), "serve".to_string()],
        start_time: Some(100 + pid as u64),
        working_dir: Some(dir.to_string()),
    }
}

#[test]
fn tracker_reports_processes_whole() {
    let mut tracker = ProcessTracker::new();
    let out = tracker.poll(vec![info(1, "/a"), info(2, "/b"), info(1, "/c")]);
    assert_eq!(out.started.len(), 2);
    assert_eq!(out.started[0].working_dir.as_deref(), Some("/a"));
    assert_eq!(out.started[1].start_time, Some(102));
    let out = tracker.poll(vec![info(2, "/z")]);
    assert!(out.started.is_empty());
    assert_eq!(out.stopped.len(), 1);
    assert_eq!(out.stopped[0].pid, 1);
    assert_eq!(out.stopped[0].command_line, vec!["opencode".to_string(), "serve".to_string()]);
    assert_eq!(out.stopped[0].working_dir.as_deref(), Some("/a"));
}

#[test]
fn exit_events_carry_the_whole_process() {
    match exit_event(info(7, "/w"), Some(0)) {
        OpenCodeEvent::OpenCodeStopped { process, reason } => {
            assert_eq!(reason, OpenCodeExitReason::NormalExit);
            assert_eq!(process.working_dir.as_deref(), Some("/w"));
            assert_eq!(process.start_time, Some(107));
        }
        other => panic!("unexpected {other:?}"),
    }
    assert!(matches!(exit_event(info(7, "/w"), Some(3)), OpenCodeEvent::OpenCodeCrashed { exit_code: 3, .. }));
}

#[test]
fn opencode_tracker_keeps_the_supervised_process() {
    let mut tracker = OpenCodeTracker::new();
    assert!(matches!(tracker.poll(Some(info(4, "/a"))), OpenCodeStep::Started(p) if p.working_dir.as_deref() == Some("/a")));
    assert!(matches!(tracker.poll(Some(info(4, "/b"))), OpenCodeStep::CheckHealth));
    match tracker.poll(None) {
        OpenCodeStep::Exited(p) => assert_eq!(p.working_dir.as_deref(), Some("/a")),
        other => panic!("unexpected {other:?}"),
    }
}
