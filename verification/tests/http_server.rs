use palingenesis::config::schema::{Config, OtelConfig};
use palingenesis::daemon::state::DaemonState;
use palingenesis::http::server::{fallback_response, http_plan, metrics_enabled, EventClock};
use palingenesis::monitor::detection::DetectionResult;
use palingenesis::notify::events::Timestamp;

#[test]
fn test_http_disabled_returns_none() {
    let mut config = Config::default().daemon;
    config.http_enabled = false;
    assert!(http_plan(&config).is_none());
}

#[test]
fn test_custom_port_configuration() {
    let mut config = Config::default().daemon;
    config.http_enabled = true;
    config.http_bind = "127.0.0.1".to_string();
    config.http_port = 9001;
    let plan = http_plan(&config).unwrap();
    assert_eq!(plan.address, "127.0.0.1:9001");
    assert!(!plan.all_interfaces);
}

#[test]
fn all_interfaces_are_flagged() {
    let mut config = Config::default().daemon;
    config.http_enabled = true;
    config.http_bind = "0.0.0.0".to_string();
    assert!(http_plan(&config).unwrap().all_interfaces);
}

#[test]
fn fallback_is_not_found() {
    let (status, body) = fallback_response();
    assert_eq!(status, 404);
    assert!(!body.success);
    assert_eq!(body.error.code, "NOT_FOUND");
    assert_eq!(body.error.message, "The requested endpoint does not exist");
}

#[test]
fn metrics_follow_the_otel_section() {
    let state = DaemonState::new(Config::default(), &DetectionResult { assistants: Vec::new() });
    assert!(metrics_enabled(&state));
    let mut config = Config::default();
    let mut otel = OtelConfig::default();
    otel.metrics_enabled = false;
    config.otel = Some(otel);
    let state = DaemonState::new(config, &DetectionResult { assistants: Vec::new() });
    assert!(!metrics_enabled(&state));
}

#[test]
fn event_clock_keeps_the_last_time() {
    let mut clock = EventClock::new();
    assert!(clock.last_event_timestamp().is_none());
    let t = Timestamp::from_unix(1_738_555_506, 0).unwrap();
    clock.record(t);
    assert_eq!(clock.last_event_timestamp(), Some(t));
}
