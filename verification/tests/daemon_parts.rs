use palingenesis::daemon::shutdown::{shutdown_result, ShutdownResult};
use palingenesis::daemon::signals::{next_signal_step, DaemonSignal, SignalEvent};
use palingenesis::ipc::client::{command_text, expect_ok, expect_status, parse_response, IpcClientError, ReplyLine};
use palingenesis::ipc::protocol::{IpcCommand, IpcResponse};
use palingenesis::notify::dispatch::{dispatch_summary, ChannelOutcome, NotifyError};

#[test]
fn signals_map_to_daemon_requests() {
    let term = next_signal_step(SignalEvent::Terminate);
    assert_eq!(term.send, Some(DaemonSignal::Shutdown));
    assert!(term.cancel && term.stop);
    let int = next_signal_step(SignalEvent::Interrupt);
    assert_eq!(int.send, Some(DaemonSignal::Shutdown));
    let hup = next_signal_step(SignalEvent::Hangup);
    assert_eq!(hup.send, Some(DaemonSignal::Reload));
    assert!(!hup.cancel && !hup.stop);
    let cancelled = next_signal_step(SignalEvent::Cancelled);
    assert_eq!(cancelled.send, None);
    assert!(cancelled.stop && !cancelled.cancel);
    let failed = next_signal_step(SignalEvent::RegistrationFailed);
    assert!(failed.cancel && failed.stop && failed.send.is_none());
}

#[test]
fn shutdown_counts_hung_tasks() {
    assert_eq!(shutdown_result(true, &vec![false, false]), ShutdownResult::Graceful);
    assert_eq!(shutdown_result(false, &vec![true, false, false]), ShutdownResult::TimedOut { hung_tasks: 2 });
    assert_eq!(shutdown_result(false, &vec![]), ShutdownResult::TimedOut { hung_tasks: 0 });
}

#[test]
fn client_command_lines() {
    assert_eq!(command_text(IpcCommand::Status), "STATUS\n");
    assert_eq!(command_text(IpcCommand::Pause), "PAUSE\n");
    assert_eq!(command_text(IpcCommand::Resume), "RESUME\n");
    assert_eq!(command_text(IpcCommand::Reload), "RELOAD\n");
    assert_eq!(IpcCommand::parse(command_text(IpcCommand::NewSession)), Some(IpcCommand::NewSession));
}

#[test]
fn client_reads_reply_lines() {
    assert!(matches!(parse_response("OK\n"), Ok(ReplyLine::Success)));
    match parse_response("ERR:  Daemon already paused \n") {
        Ok(ReplyLine::Error { message }) => assert_eq!(message, "Daemon already paused"),
        other => panic!("unexpected {other:?}"),
    }
    match parse_response("{\"state\":\"paused\"}\n") {
        Ok(ReplyLine::Status(json)) => assert_eq!(json, "{\"state\":\"paused\"}"),
        other => panic!("unexpected {other:?}"),
    }
    match parse_response("  \n") {
        Err(IpcClientError::Protocol(m)) => assert_eq!(m, "Empty response"),
        other => panic!("unexpected {other:?}"),
    }
}

#[test]
fn client_expectations() {
    assert!(expect_ok(IpcResponse::Success).is_ok());
    match expect_ok(IpcResponse::Error { message: "nope".to_string() }) {
        Err(IpcClientError::Protocol(m)) => assert_eq!(m, "nope"),
        other => panic!("unexpected {other:?}"),
    }
    match expect_status(IpcResponse::Success) {
        Err(IpcClientError::Protocol(m)) => assert_eq!(m, "Unexpected OK response"),
        other => panic!("unexpected {other:?}"),
    }
}

#[test]
fn dispatch_summary_lists_failed_channels_in_order() {
    let outcomes = vec![
        ChannelOutcome { name: "webhook".to_string(), result: Ok(()) },
        ChannelOutcome {
            name: "slack".to_string(),
            result: Err(NotifyError::SendFailed { message: "boom".to_string() }),
        },
        ChannelOutcome {
            name: "ntfy".to_string(),
            result: Err(NotifyError::Timeout { duration: std::time::Duration::from_secs(10) }),
        },
    ];
    let summary = dispatch_summary(3, &outcomes);
    assert_eq!(summary.total, 3);
    assert_eq!(summary.successes, 1);
    assert_eq!(summary.failures, 2);
    assert_eq!(summary.failed_channels, vec!["slack".to_string(), "ntfy".to_string()]);
}
