use palingenesis::config::changes::{
    config_section, find_editor, line_col_from_offset, non_reloadable_changes, validation_report, ConfigSection,
    ValidationStatus,
};
use palingenesis::config::schema::{Config, OtelConfig};
use palingenesis::config::validation::validate_config;

#[test]
fn restart_settings_are_listed_in_order() {
    let old = Config::default();
    let mut new = Config::default();
    assert!(non_reloadable_changes(&old, &new).is_empty());
    new.daemon.http_port = 9000;
    new.daemon.pid_file = Some("/tmp/other.pid".to_string());
    new.otel = Some(OtelConfig::default());
    new.monitoring.auto_detect = !new.monitoring.auto_detect;
    assert_eq!(
        non_reloadable_changes(&old, &new),
        vec!["daemon.pid_file".to_string(), "daemon.http_port".to_string(), "otel".to_string()]
    );
}

#[test]
fn line_and_column_of_offsets() {
    let text = "a = 1\nb = [\nc";
    assert_eq!(line_col_from_offset(text, 0), (1, 1));
    assert_eq!(line_col_from_offset(text, 4), (1, 5));
    assert_eq!(line_col_from_offset(text, 6), (2, 1));
    assert_eq!(line_col_from_offset(text, 10), (2, 5));
    assert_eq!(line_col_from_offset(text, 100), (3, 2));
    assert_eq!(line_col_from_offset("é\nx", 2), (1, 2));
}

#[test]
fn sections_are_named_in_any_case() {
    assert_eq!(config_section("Daemon"), Ok(ConfigSection::Daemon));
    assert_eq!(config_section("OTEL"), Ok(ConfigSection::Otel));
    assert_eq!(config_section("opencode"), Ok(ConfigSection::OpenCode));
    assert_eq!(
        config_section("Bogus"),
        Err("Unknown section: bogus. Valid sections: daemon, monitoring, resume, notifications, opencode, mcp, otel"
            .to_string())
    );
}

#[test]
fn editor_is_chosen_in_order() {
    assert_eq!(find_editor(Some("vim".to_string()), Some("code".to_string()), true, true), Ok("vim".to_string()));
    assert_eq!(find_editor(Some("  ".to_string()), Some("code".to_string()), true, true), Ok("code".to_string()));
    assert_eq!(find_editor(None, None, true, true), Ok("vi".to_string()));
    assert_eq!(find_editor(None, Some("".to_string()), false, true), Ok("nano".to_string()));
    assert!(find_editor(None, None, false, false).unwrap_err().starts_with("No editor found."));
}

#[test]
fn validation_report_lines() {
    let valid = validate_config(&Config::default());
    let report = validation_report(&valid);
    assert_eq!(report.status, ValidationStatus::Valid);
    assert_eq!(report.stdout_lines, vec!["\x1b[32mConfiguration valid\x1b[0m".to_string()]);

    let mut config = Config::default();
    config.daemon.log_level = "verbose".to_string();
    let result = validate_config(&config);
    let report = validation_report(&result);
    assert_eq!(report.status, ValidationStatus::Invalid);
    assert!(report.stdout_lines.is_empty());
    assert!(report.stderr_lines.contains(&"\x1b[31mConfiguration errors:\x1b[0m".to_string()));
    assert!(report.stderr_lines.iter().any(|l| l.starts_with("  daemon.log_level: ")));
}
