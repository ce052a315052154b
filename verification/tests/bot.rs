use std::str::FromStr;

use palingenesis::bot::auth::BotAuth;
use palingenesis::bot::commands::{BotCommand, BotCommandField, BotCommandResult};
use palingenesis::config::schema::{AuthorizedUser, BotConfig, BotPlatform};

#[test]
fn authorized_user_passes_check() {
    let config = BotConfig {
        enabled: true,
        allow_all_users: false,
        discord_application_id: None,
        discord_public_key: None,
        slack_signing_secret: None,
        authorized_users: vec![AuthorizedUser {
            platform: BotPlatform::Discord,
            user_id: "123".to_string(),
        }],
    };

    let auth = BotAuth::for_platform(&config, BotPlatform::Discord);
    assert!(auth.is_authorized("123"));
}

#[test]
fn unauthorized_user_fails_check() {
    let config = BotConfig {
        enabled: true,
        allow_all_users: false,
        discord_application_id: None,
        discord_public_key: None,
        slack_signing_secret: None,
        authorized_users: vec![AuthorizedUser {
            platform: BotPlatform::Slack,
            user_id: "U123".to_string(),
        }],
    };

    let auth = BotAuth::for_platform(&config, BotPlatform::Slack);
    assert!(!auth.is_authorized("U999"));
}

#[test]
fn empty_authorized_list_allows_all_when_configured() {
    let config = BotConfig {
        enabled: true,
        allow_all_users: true,
        discord_application_id: None,
        discord_public_key: None,
        slack_signing_secret: None,
        authorized_users: Vec::new(),
    };

    let auth = BotAuth::for_platform(&config, BotPlatform::Discord);
    assert!(auth.is_authorized("any"));
}

#[test]
fn users_of_other_platform_do_not_authorize() {
    let config = BotConfig {
        enabled: true,
        allow_all_users: false,
        discord_application_id: None,
        discord_public_key: None,
        slack_signing_secret: None,
        authorized_users: vec![AuthorizedUser {
            platform: BotPlatform::Slack,
            user_id: "U123".to_string(),
        }],
    };
    let auth = BotAuth::for_platform(&config, BotPlatform::Discord);
    assert!(!auth.is_authorized("anyone"));
    assert!(!auth.is_authorized("U123"));
}

#[test]
fn no_listed_users_rejects_everyone() {
    let config = BotConfig {
        enabled: true,
        allow_all_users: false,
        discord_application_id: None,
        discord_public_key: None,
        slack_signing_secret: None,
        authorized_users: Vec::new(),
    };
    let auth = BotAuth::for_platform(&config, BotPlatform::Slack);
    assert!(!auth.is_authorized("U1"));
}

#[test]
fn parses_status_command() {
    let cmd = BotCommand::from_str("/palin status").unwrap();
    assert_eq!(cmd, BotCommand::Status);
}

#[test]
fn parses_logs_tail_command() {
    let cmd = BotCommand::from_str("/palin logs --tail 5").unwrap();
    assert_eq!(cmd, BotCommand::Logs { tail: 5 });
}

#[test]
fn parses_simple_status_command() {
    let cmd = BotCommand::from_str("status").unwrap();
    assert_eq!(cmd, BotCommand::Status);
}

#[test]
fn rejects_unknown_command() {
    let err = BotCommand::from_str("/palin nope").unwrap_err();
    assert!(err.to_string().contains("Unknown command"));
}

#[test]
fn empty_command_text_asks_for_help() {
    assert_eq!(BotCommand::from_str("   ").unwrap(), BotCommand::Help);
    assert_eq!(BotCommand::from_str("/PALIN").unwrap(), BotCommand::Help);
}

#[test]
fn logs_defaults_and_errors() {
    assert_eq!(BotCommand::from_str("logs").unwrap(), BotCommand::Logs { tail: 10 });
    assert_eq!(
        BotCommand::from_str("palin logs --tail").unwrap_err().to_string(),
        "Missing value for --tail"
    );
    assert_eq!(
        BotCommand::from_str("palin logs -t many").unwrap_err().to_string(),
        "Invalid value for --tail"
    );
    assert_eq!(BotCommand::from_str("newsession").unwrap(), BotCommand::NewSession);
}

#[test]
fn discord_reply_truncates_long_texts() {
    let long = "x".repeat(300);
    let result = BotCommandResult::success(&long)
        .with_body("body")
        .with_fields(vec![BotCommandField { name: "n".to_string(), value: "v".to_string(), inline: true }]);
    assert!(result.discord_cuts_fit());
    let reply = result.to_discord_reply();
    assert_eq!(reply.title.len(), 256);
    assert!(reply.title.ends_with("..."));
    assert_eq!(reply.description.as_deref(), Some("body"));
    assert_eq!(reply.fields.unwrap().len(), 1);
}

#[test]
fn slack_reply_uses_fields_when_no_body() {
    let result = BotCommandResult::error("Nope")
        .with_fields(vec![BotCommandField { name: "A".to_string(), value: "b".to_string(), inline: false }]);
    assert!(result.slack_cuts_fit());
    let reply = result.to_slack_reply();
    assert_eq!(reply.header, "Nope");
    assert_eq!(reply.section.unwrap(), vec!["*A*\nb".to_string()]);
}

#[test]
fn multibyte_title_that_cannot_be_cut_is_reported() {
    // 'é' takes two bytes, so 150 of them cannot be cut at 253 bytes.
    let title = "\u{e9}".repeat(150);
    let result = BotCommandResult::success(&title);
    assert!(!result.discord_cuts_fit());
}
