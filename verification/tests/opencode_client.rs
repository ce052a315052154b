use palingenesis::config::schema::Config;
use palingenesis::opencode::client::{
    base_url, basic_auth_from, default_backoff_ms, message_url, next_retry_delay, read_message_reply, read_reply,
    OpenCodeApiError,
};

#[test]
fn addresses_are_built_from_the_config() {
    let config = Config::default().opencode;
    let base = base_url(&config);
    assert_eq!(base, format!("http://{}:{}", config.serve_hostname, config.serve_port));
    assert_eq!(message_url("http://h:1", "abc"), "http://h:1/session/abc/message");
}

#[test]
fn credentials_need_a_password() {
    assert!(basic_auth_from(None, Some("u".to_string())).is_none());
    let auth = basic_auth_from(Some("p".to_string()), None).unwrap();
    assert_eq!(auth.username, "opencode");
    assert_eq!(auth.password, "p");
    assert_eq!(basic_auth_from(Some("p".to_string()), Some("me".to_string())).unwrap().username, "me");
}

#[test]
fn replies_are_read_by_status() {
    assert_eq!(read_reply(200, "{}".to_string()).unwrap(), "{}");
    assert!(matches!(read_reply(404, "gone".to_string()), Err(OpenCodeApiError::NotFound(b)) if b == "gone"));
    assert!(matches!(read_reply(503, "x".to_string()), Err(OpenCodeApiError::HttpStatus { status: 503, .. })));
    assert!(read_message_reply(202, "s1", String::new()).is_ok());
    assert!(matches!(read_message_reply(404, "s1", String::new()), Err(OpenCodeApiError::NotFound(id)) if id == "s1"));
    assert!(matches!(read_message_reply(400, "s1", "bad".to_string()), Err(OpenCodeApiError::HttpStatus { status: 400, .. })));
}

#[test]
fn retries_follow_the_backoff_for_retryable_errors() {
    let delays = default_backoff_ms();
    assert_eq!(delays, vec![1000, 2000, 4000]);
    assert_eq!(next_retry_delay(0, &OpenCodeApiError::Timeout, &delays), Some(1000));
    assert_eq!(next_retry_delay(2, &OpenCodeApiError::ConnectionFailed("x".to_string()), &delays), Some(4000));
    assert_eq!(next_retry_delay(3, &OpenCodeApiError::Timeout, &delays), None);
    let server_error = OpenCodeApiError::HttpStatus { status: 500, body: String::new() };
    assert!(server_error.is_retryable());
    assert_eq!(next_retry_delay(1, &server_error, &delays), Some(2000));
    let not_found = OpenCodeApiError::NotFound("s".to_string());
    assert!(!not_found.is_retryable());
    assert_eq!(next_retry_delay(0, &not_found, &delays), None);
    assert!(!OpenCodeApiError::HttpStatus { status: 404, body: String::new() }.is_retryable());
}
