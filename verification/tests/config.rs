use palingenesis::config::schema::{Config, WebhookConfig};
use palingenesis::config::validation::validate_config;

#[test]
fn test_validate_config_reports_invalid_log_level() {
    let mut config = Config::default();
    config.daemon.log_level = "verbose".to_string();
    let result = validate_config(&config);
    assert!(result
        .errors
        .iter()
        .any(|err| err.field == "daemon.log_level"));
}

#[test]
fn test_validate_config_reports_zero_base_delay() {
    let mut config = Config::default();
    config.resume.base_delay_secs = 0;
    let result = validate_config(&config);
    assert!(result
        .errors
        .iter()
        .any(|err| err.field == "resume.base_delay_secs"));
}

#[test]
fn test_validate_config_reports_invalid_webhook_url() {
    let mut config = Config::default();
    config.notifications.webhook = Some(WebhookConfig {
        url: "ftp://example.com".to_string(),
        headers: None,
    });
    let result = validate_config(&config);
    assert!(result
        .errors
        .iter()
        .any(|err| err.field == "notifications.webhook.url"));
}

#[test]
fn test_validate_config_reports_missing_bot_keys() {
    let mut config = Config::default();
    config.bot.enabled = true;
    let result = validate_config(&config);
    assert!(result.errors.iter().any(|err| err.field == "bot.enabled"));
}

#[test]
fn test_validate_config_reports_invalid_discord_key() {
    let mut config = Config::default();
    config.bot.enabled = true;
    config.bot.discord_public_key = Some("not-hex".to_string());
    let result = validate_config(&config);
    assert!(result
        .errors
        .iter()
        .any(|err| err.field == "bot.discord_public_key"));
}
