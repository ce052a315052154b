use palingenesis::config::schema::Config;
use palingenesis::config::validation::{ValidationError, ValidationResult};
use palingenesis::daemon::state::DaemonState;
use palingenesis::monitor::detection::{
    detect_assistants, AssistantDefinition, DetectedAssistant, DetectionFacts, DetectionMethod, DetectionResult,
};

fn nothing_detected() -> DetectionResult {
    DetectionResult { assistants: Vec::new() }
}

fn valid() -> ValidationResult {
    ValidationResult { errors: Vec::new(), warnings: Vec::new() }
}

fn invalid() -> ValidationResult {
    ValidationResult {
        errors: vec![ValidationError {
            field: "daemon.log_level".to_string(),
            message: "Invalid log level".to_string(),
            suggestion: None,
        }],
        warnings: Vec::new(),
    }
}

#[test]
fn a_valid_reload_installs_every_setting() {
    let mut state = DaemonState::new(Config::default(), &nothing_detected());
    let mut next = Config::default();
    next.daemon.log_level = "debug".to_string();
    next.monitoring.debounce_ms = 250;
    next.monitoring.assistants = vec!["opencode".to_string()];
    next.notifications.enabled = true;
    assert!(state.apply_reload(next, &valid(), &nothing_detected()).is_ok());
    let config = state.config();
    assert_eq!(config.daemon.log_level, "debug");
    assert_eq!(config.monitoring.debounce_ms, 250);
    assert_eq!(config.monitoring.assistants, vec!["opencode".to_string()]);
    assert!(config.notifications.enabled);
}

#[test]
fn an_invalid_reload_keeps_the_state() {
    let mut state = DaemonState::new(Config::default(), &nothing_detected());
    let mut next = Config::default();
    next.monitoring.debounce_ms = 999;
    let err = state.apply_reload(next, &invalid(), &nothing_detected()).unwrap_err();
    assert_eq!(err, "Configuration validation failed");
    assert_eq!(state.config().monitoring.debounce_ms, 100);
}

#[test]
fn reload_passes_on_a_load_error() {
    let mut state = DaemonState::new(Config::default(), &nothing_detected());
    let err = state.reload_config(Err("Failed to parse".to_string()), &nothing_detected()).unwrap_err();
    assert_eq!(err, "Failed to parse");
}

#[test]
fn a_new_daemon_keeps_the_configuration() {
    let mut config = Config::default();
    config.monitoring.debounce_ms = 42;
    config.notifications.enabled = true;
    let state = DaemonState::new(config, &nothing_detected());
    assert_eq!(state.config().monitoring.debounce_ms, 42);
    assert!(state.config().notifications.enabled);
}

fn definition(name: &str) -> AssistantDefinition {
    AssistantDefinition { name: name.to_string(), session_dir: format!("/home/u/.{name}"), process_name: None }
}

fn facts(files: bool, dir: bool, running: bool) -> DetectionFacts {
    DetectionFacts { has_session_files: files, dir_exists: dir, process_running: running }
}

fn summary(d: &DetectedAssistant) -> (String, String, DetectionMethod, bool) {
    (d.name.clone(), d.session_dir.clone(), d.detected_by, d.active)
}

#[test]
fn detection_reports_each_assistant_as_found() {
    let observed = vec![
        (definition("a"), facts(true, true, false)),
        (definition("b"), facts(false, false, false)),
        (definition("c"), facts(false, true, true)),
        (definition("d"), facts(false, true, false)),
    ];
    let result = detect_assistants(&observed);
    let got: Vec<_> = result.assistants.iter().map(summary).collect();
    assert_eq!(
        got,
        vec![
            ("a".to_string(), "/home/u/.a".to_string(), DetectionMethod::SessionFile, true),
            ("c".to_string(), "/home/u/.c".to_string(), DetectionMethod::Process, true),
            ("d".to_string(), "/home/u/.d".to_string(), DetectionMethod::Directory, false),
        ]
    );
}
