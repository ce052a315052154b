use ed25519_dalek::{Signer, SigningKey};
use hmac::{Hmac, Mac};
use sha2::Sha256;

use palingenesis::bot::commands::BotCommand;
use palingenesis::bot::executor::{
    format_duration, log_lines_fit, log_tail, logs_can_be_shown, truncate_log_lines, CommandExecutor, LogTail,
};
use palingenesis::bot::signature::{
    constant_time_eq, verify_discord_signature, verify_slack_signature, verify_slack_signature_at,
};
use palingenesis::bot::webhook::{
    discord_webhook_handler, parse_discord_command, slack_webhook_decision, BotReply, DiscordCommandData,
    DiscordCommandOption, DiscordInteraction, DiscordMember, DiscordUser, SlackCommandPayload, WebhookDecision,
};
use palingenesis::config::schema::{AuthorizedUser, BotConfig, BotPlatform, Config};
use palingenesis::daemon::state::DaemonState;
use palingenesis::monitor::detection::DetectionResult;
use palingenesis::notify::events::Timestamp;

fn fresh_state() -> DaemonState {
    DaemonState::new(Config::default(), &DetectionResult { assistants: Vec::new() })
}

#[test]
fn status_command_returns_fields() {
    let executor = CommandExecutor::new(None);
    let mut state = fresh_state();
    let result = executor.execute(BotCommand::Status, &mut state, LogTail::NoFile);
    assert!(result.success);
    assert!(!result.fields.is_empty());
}

#[test]
fn pause_command_updates_state() {
    let mut state = fresh_state();
    let executor = CommandExecutor::new(None);
    let result = executor.execute(BotCommand::Pause, &mut state, LogTail::NoFile);
    assert!(result.success);
    assert!(state.is_paused());
}

#[test]
fn resume_command_updates_state() {
    let mut state = fresh_state();
    state.pause().unwrap();
    let executor = CommandExecutor::new(None);
    let result = executor.execute(BotCommand::Resume, &mut state, LogTail::NoFile);
    assert!(result.success);
    assert!(!state.is_paused());
}

#[test]
fn status_fields_show_state_and_last_event() {
    let mut state = fresh_state();
    let executor = CommandExecutor::new(Timestamp::from_unix(0, 0));
    let result = executor.execute(BotCommand::Status, &mut state, LogTail::NoFile);
    assert_eq!(result.title, "Daemon status");
    assert_eq!(result.fields.len(), 4);
    assert_eq!(result.fields[0].name, "State");
    assert_eq!(result.fields[0].value, "running");
    assert_eq!(result.fields[2].value, "None");
    assert_eq!(result.fields[3].value, "1970-01-01T00:00:00+00:00");
    state.pause().unwrap();
    let none = CommandExecutor::new(None).execute(BotCommand::Status, &mut state, LogTail::NoFile);
    assert_eq!(none.fields[0].value, "paused");
    assert_eq!(none.fields[3].value, "No events yet");
}

#[test]
fn pause_twice_and_resume_when_running_report_errors() {
    let mut state = fresh_state();
    let executor = CommandExecutor::new(None);
    assert!(executor.execute(BotCommand::Pause, &mut state, LogTail::NoFile).success);
    let again = executor.execute(BotCommand::Pause, &mut state, LogTail::NoFile);
    assert!(!again.success);
    assert_eq!(again.title, "Daemon already paused");
    executor.execute(BotCommand::Resume, &mut state, LogTail::NoFile);
    let not_paused = executor.execute(BotCommand::Resume, &mut state, LogTail::NoFile);
    assert_eq!(not_paused.title, "Daemon is not paused");
}

#[test]
fn new_session_and_help_replies() {
    let mut state = fresh_state();
    let executor = CommandExecutor::new(None);
    let r = executor.execute(BotCommand::NewSession, &mut state, LogTail::NoFile);
    assert_eq!(r.title, "New session started");
    let body = r.body.unwrap();
    assert!(body.starts_with("Session ID: "));
    assert_eq!(body.len(), 48);
    let help = executor.execute(BotCommand::Help, &mut state, LogTail::NoFile);
    assert_eq!(help.title, "palingenesis bot help");
    assert!(help.body.unwrap().contains("- /palin logs [--tail|-t N]"));
}

#[test]
fn logs_replies() {
    let mut state = fresh_state();
    let executor = CommandExecutor::new(None);
    let missing = executor.execute(BotCommand::Logs { tail: 2 }, &mut state, LogTail::NoFile);
    assert!(!missing.success);
    assert_eq!(missing.title, "No log file found");
    let failed = executor.execute(BotCommand::Logs { tail: 2 }, &mut state, LogTail::Failed("denied".to_string()));
    assert_eq!(failed.title, "Failed to read logs: denied");
    let empty = executor.execute(BotCommand::Logs { tail: 2 }, &mut state, LogTail::Lines(Vec::new()));
    assert!(empty.success);
    assert_eq!(empty.title, "No log entries found");
    let lines = vec!["a".to_string(), "b".to_string(), "c".to_string()];
    let logs = LogTail::Lines(lines);
    assert!(logs_can_be_shown(2, &logs));
    let shown = executor.execute(BotCommand::Logs { tail: 2 }, &mut state, logs);
    assert_eq!(shown.title, "Last 2 log lines");
    assert_eq!(shown.body.unwrap(), "```\nb\nc\n```");
}

#[test]
fn log_tail_keeps_the_last_lines() {
    let lines: Vec<String> = (1..=5).map(|i| format!("line {i}")).collect();
    assert_eq!(log_tail(&lines, 2), vec!["line 4".to_string(), "line 5".to_string()]);
    assert_eq!(log_tail(&lines, 10).len(), 5);
    assert!(log_tail(&lines, 0).is_empty());
}

#[test]
fn truncation_of_log_lines() {
    let lines = vec!["abcd".to_string(), "efgh".to_string(), "ij".to_string()];
    assert_eq!(truncate_log_lines(&lines, 100), "abcd\nefgh\nij");
    assert_eq!(truncate_log_lines(&lines, 10), "abcd\nefgh\n...(truncated)");
    assert_eq!(truncate_log_lines(&lines, 8), "abcd\n...(truncated)");
    assert_eq!(truncate_log_lines(&lines, 4), "a...");
    let wide = vec!["ééé".to_string()];
    assert!(!log_lines_fit(&wide, 6));
    assert!(log_lines_fit(&wide, 5));
    assert_eq!(truncate_log_lines(&wide, 5), "é...");
    assert_eq!(truncate_log_lines(&wide, 7), "ééé");
}

#[test]
fn durations_are_formatted_by_largest_unit() {
    assert_eq!(format_duration(45), "45s");
    assert_eq!(format_duration(125), "2m 5s");
    assert_eq!(format_duration(3 * 3600 + 61), "3h 1m 1s");
}

#[test]
fn constant_time_eq_compares_bytes() {
    assert!(constant_time_eq(b"abc", b"abc"));
    assert!(!constant_time_eq(b"abc", b"abd"));
    assert!(!constant_time_eq(b"abc", b"ab"));
    assert!(constant_time_eq(b"", b""));
}

fn discord_config(key_hex: &str) -> BotConfig {
    BotConfig {
        enabled: true,
        allow_all_users: false,
        discord_application_id: None,
        discord_public_key: Some(key_hex.to_string()),
        slack_signing_secret: None,
        authorized_users: vec![AuthorizedUser { platform: BotPlatform::Discord, user_id: "42".to_string() }],
    }
}

fn signed(key: &SigningKey, timestamp: &str, body: &[u8]) -> String {
    let mut message = timestamp.as_bytes().to_vec();
    message.extend_from_slice(body);
    hex::encode(key.sign(&message).to_bytes())
}

fn interaction(kind: u8, user: &str, sub: &str, tail: Option<u64>) -> DiscordInteraction {
    DiscordInteraction {
        interaction_type: kind,
        data: Some(DiscordCommandData {
            name: "palin".to_string(),
            options: Some(vec![DiscordCommandOption {
                name: sub.to_string(),
                value: None,
                options: tail.map(|t| {
                    vec![DiscordCommandOption { name: "tail".to_string(), value: Some(t), options: None }]
                }),
            }]),
        }),
        member: Some(DiscordMember { user: Some(DiscordUser { id: user.to_string() }) }),
        user: None,
    }
}

#[test]
fn discord_signatures_are_checked() {
    let key = SigningKey::from_bytes(&[7u8; 32]);
    let public_hex = hex::encode(key.verifying_key().to_bytes());
    let config = discord_config(&format!("  {public_hex}\n"));
    let body = br#"{"type":1}"#;
    let sig = signed(&key, "1700000000", body);
    assert_eq!(
        verify_discord_signature(&config, &Some(sig.clone()), &Some("1700000000".to_string()), body),
        Ok(())
    );
    assert_eq!(
        verify_discord_signature(&config, &Some(sig.clone()), &Some("1700000001".to_string()), body),
        Err("Signature verification failed")
    );
    assert_eq!(
        verify_discord_signature(&config, &None, &Some("1".to_string()), body),
        Err("Missing Discord signature header")
    );
    assert_eq!(
        verify_discord_signature(&config, &Some("zz".to_string()), &Some("1".to_string()), body),
        Err("Invalid signature")
    );
    assert_eq!(
        verify_discord_signature(&config, &Some("00".to_string()), &Some("1".to_string()), body),
        Err("Invalid signature length")
    );
    assert_eq!(
        verify_discord_signature(&discord_config("abcd"), &Some(sig), &Some("1".to_string()), body),
        Err("Invalid public key length")
    );
    let mut unconfigured = discord_config("00");
    unconfigured.discord_public_key = None;
    assert_eq!(
        verify_discord_signature(&unconfigured, &None, &None, body),
        Err("Discord public key not configured")
    );
}

#[test]
fn discord_interactions_are_decided() {
    let key = SigningKey::from_bytes(&[9u8; 32]);
    let config = discord_config(&hex::encode(key.verifying_key().to_bytes()));
    let body = b"payload";
    let sig = Some(signed(&key, "5", body));
    let ts = Some("5".to_string());

    match discord_webhook_handler(&config, &sig, &ts, body, Some(interaction(1, "42", "status", None))) {
        WebhookDecision::Reply(BotReply::Pong) => {}
        other => panic!("expected pong, got {other:?}"),
    }
    match discord_webhook_handler(&config, &sig, &ts, body, Some(interaction(2, "42", "logs", Some(5)))) {
        WebhookDecision::Execute(BotCommand::Logs { tail: 5 }) => {}
        other => panic!("expected logs, got {other:?}"),
    }
    match discord_webhook_handler(&config, &sig, &ts, body, Some(interaction(2, "7", "status", None))) {
        WebhookDecision::Reply(BotReply::Result(r)) => {
            assert!(!r.success);
            assert_eq!(r.title, "Unauthorized: You don't have permission to use this command.");
        }
        other => panic!("expected refusal, got {other:?}"),
    }
    match discord_webhook_handler(&config, &sig, &ts, body, Some(interaction(3, "42", "status", None))) {
        WebhookDecision::Reply(BotReply::Message { status: 400, message }) => {
            assert_eq!(message, "Unsupported interaction")
        }
        other => panic!("expected 400, got {other:?}"),
    }
    match discord_webhook_handler(&config, &sig, &ts, body, None) {
        WebhookDecision::Reply(BotReply::Message { status: 400, message }) => assert_eq!(message, "Invalid payload"),
        other => panic!("expected 400, got {other:?}"),
    }
    match discord_webhook_handler(&config, &None, &ts, body, None) {
        WebhookDecision::Reply(BotReply::Message { status: 401, message }) => {
            assert_eq!(message, "Missing Discord signature header")
        }
        other => panic!("expected 401, got {other:?}"),
    }
    let mut disabled = discord_config(&hex::encode(key.verifying_key().to_bytes()));
    disabled.enabled = false;
    match discord_webhook_handler(&disabled, &sig, &ts, body, None) {
        WebhookDecision::Reply(BotReply::Message { status: 403, .. }) => {}
        other => panic!("expected 403, got {other:?}"),
    }
}

#[test]
fn discord_commands_are_read_from_options() {
    assert_eq!(parse_discord_command(&interaction(2, "1", "status", None)), Ok(BotCommand::Status));
    assert_eq!(parse_discord_command(&interaction(2, "1", "logs", Some(3))), Ok(BotCommand::Logs { tail: 3 }));
    assert_eq!(parse_discord_command(&interaction(2, "1", "dance", None)), Err("Invalid command"));
    let mut other = interaction(2, "1", "status", None);
    other.data.as_mut().unwrap().name = "other".to_string();
    assert_eq!(parse_discord_command(&other), Err("Unknown command"));
    other.data = None;
    assert_eq!(parse_discord_command(&other), Err("Missing command data"));
    let bare = DiscordInteraction {
        interaction_type: 2,
        data: Some(DiscordCommandData { name: "palin".to_string(), options: None }),
        member: None,
        user: Some(DiscordUser { id: "9".to_string() }),
    };
    assert_eq!(parse_discord_command(&bare), Ok(BotCommand::Help));
    assert_eq!(bare.user_id(), Some("9".to_string()));
}

fn slack_config(secret: &str) -> BotConfig {
    BotConfig {
        enabled: true,
        allow_all_users: true,
        discord_application_id: None,
        discord_public_key: None,
        slack_signing_secret: Some(secret.to_string()),
        authorized_users: Vec::new(),
    }
}

fn slack_signature(secret: &str, timestamp: &str, body: &str) -> String {
    let mut mac = Hmac::<Sha256>::new_from_slice(secret.as_bytes()).unwrap();
    mac.update(format!("v0:{timestamp}:{body}").as_bytes());
    format!("v0={}", hex::encode(mac.finalize().into_bytes()))
}

#[test]
fn slack_signatures_are_checked() {
    let config = slack_config("shh");
    let body = "user_id=U1&text=status&command=%2Fpalin";
    let sig = slack_signature("shh", "1000", body);
    let ts = Some("1000".to_string());
    assert_eq!(verify_slack_signature_at(&config, &Some(sig.clone()), &ts, body.as_bytes(), Some(1200)), Ok(()));
    assert_eq!(
        verify_slack_signature_at(&config, &Some(sig.clone()), &ts, body.as_bytes(), Some(1301)),
        Err("Slack request timestamp out of range")
    );
    assert_eq!(
        verify_slack_signature_at(&config, &Some(sig.clone()), &ts, b"tampered", Some(1000)),
        Err("Signature verification failed")
    );
    assert_eq!(
        verify_slack_signature_at(&config, &Some("v1=abc".to_string()), &ts, body.as_bytes(), Some(1000)),
        Err("Invalid Slack signature format")
    );
    assert_eq!(
        verify_slack_signature_at(&config, &Some(sig.clone()), &Some("soon".to_string()), body.as_bytes(), Some(1000)),
        Err("Invalid timestamp")
    );
    assert_eq!(
        verify_slack_signature_at(&config, &Some(sig.clone()), &ts, body.as_bytes(), None),
        Err("Invalid system time")
    );
    assert_eq!(
        verify_slack_signature(&config, &Some(sig), &ts, body.as_bytes()),
        Err("Slack request timestamp out of range")
    );
}

#[test]
fn slack_commands_are_decided() {
    let config = slack_config("k");
    let body = "b";
    let sig = Some(slack_signature("k", "10", body));
    let ts = Some("10".to_string());
    let payload = |text: &str| SlackCommandPayload {
        user_id: "U1".to_string(),
        text: text.to_string(),
        command: "/palin".to_string(),
        response_url: None,
    };
    match slack_webhook_decision(&config, &sig, &ts, body.as_bytes(), Some(payload("  ")), Some(10)) {
        WebhookDecision::Execute(BotCommand::Help) => {}
        other => panic!("expected help, got {other:?}"),
    }
    match slack_webhook_decision(&config, &sig, &ts, body.as_bytes(), Some(payload(" logs -t 3 ")), Some(10)) {
        WebhookDecision::Execute(BotCommand::Logs { tail: 3 }) => {}
        other => panic!("expected logs, got {other:?}"),
    }
    match slack_webhook_decision(&config, &sig, &ts, body.as_bytes(), Some(payload("dance")), Some(10)) {
        WebhookDecision::Reply(BotReply::Result(r)) => assert_eq!(r.title, "Unknown command: dance"),
        other => panic!("expected error, got {other:?}"),
    }
    match slack_webhook_decision(&config, &sig, &ts, body.as_bytes(), None, Some(10)) {
        WebhookDecision::Reply(BotReply::Message { status: 400, .. }) => {}
        other => panic!("expected 400, got {other:?}"),
    }
}
