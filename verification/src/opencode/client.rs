//! Talking to the OpenCode server: addresses, credentials, how replies are
//! read and when a request is tried again.

use vstd::prelude::*;

use crate::config::schema::OpenCodeConfig;
use crate::text::{dec, opt_text, u64_to_string};

verus! {

/// Why a request to the OpenCode server failed.
#[derive(Debug)]
pub enum OpenCodeApiError {
    ConnectionFailed(String),
    Timeout,
    NotFound(String),
    HttpStatus { status: u16, body: String },
    ParseError(String),
}

/// A server error (5xx).
pub open spec fn is_server_error(status: u16) -> bool {
    500 <= status <= 599
}

/// A success (2xx).
pub open spec fn is_success(status: u16) -> bool {
    200 <= status <= 299
}

pub open spec fn retryable(e: OpenCodeApiError) -> bool {
    match e {
        OpenCodeApiError::Timeout | OpenCodeApiError::ConnectionFailed(_) => true,
        OpenCodeApiError::HttpStatus { status, .. } => is_server_error(status),
        _ => false,
    }
}

impl OpenCodeApiError {
    /// Timeouts, failed connections and server errors are worth another
    /// try.
    pub fn is_retryable(&self) -> (r: bool)
        ensures
            r == retryable(*self),
    {
        match self {
            OpenCodeApiError::Timeout | OpenCodeApiError::ConnectionFailed(_) => true,
            OpenCodeApiError::HttpStatus { status, .. } => 500 <= *status && *status <= 599,
            _ => false,
        }
    }
}

/// The reply to a new-session request.
#[derive(Debug, Clone)]
pub struct CreateSessionResponse {
    pub id: String,
}

/// The reply to a health request.
#[derive(Debug, Clone)]
pub struct HealthResponse {
    pub status: Option<String>,
    pub healthy: Option<bool>,
    pub version: Option<String>,
}

/// Credentials for the server's basic authentication.
#[derive(Debug, Clone)]
pub struct BasicAuth {
    pub username: String,
    pub password: String,
}

/// Credentials from `OPENCODE_SERVER_PASSWORD` and
/// `OPENCODE_SERVER_USERNAME`: none without a password, the user name
/// `opencode` by default.
pub fn basic_auth_from(password: Option<String>, username: Option<String>) -> (r: Option<BasicAuth>)
    ensures
        r is Some <==> password is Some,
        r matches Some(a) ==> Some(a.password) == password
            && a.username@ == match username { Some(u) => u@, None => "opencode"@ },
{
    let password = match password {
        Some(p) => p,
        None => return None,
    };
    let username = match username {
        Some(u) => u,
        None => "opencode".to_string(),
    };
    Some(BasicAuth { username, password })
}

/// The server's base address: `http://<host>:<port>`.
pub fn base_url(config: &OpenCodeConfig) -> (r: String)
    ensures
        r@ == "http://"@ + config.serve_hostname@ + ":"@ + dec(config.serve_port as nat),
{
    let mut url = "http://".to_string();
    url.append(config.serve_hostname.as_str());
    url.append(":");
    let port = u64_to_string(config.serve_port as u64);
    url.append(port.as_str());
    url
}

/// The address of a session's messages.
pub fn message_url(base: &str, session_id: &str) -> (r: String)
    ensures
        r@ == base@ + "/session/"@ + session_id@ + "/message"@,
{
    let mut url = base.to_string();
    url.append("/session/");
    url.append(session_id);
    url.append("/message");
    url
}

/// Reads a reply: its body on success, for the caller to decode; a missing
/// resource with the body; any other status with its body.
pub fn read_reply(status: u16, body: String) -> (r: Result<String, OpenCodeApiError>)
    ensures
        is_success(status) ==> r == Ok::<String, OpenCodeApiError>(body),
        !is_success(status) && status == 404 ==> r == Err::<String, OpenCodeApiError>(OpenCodeApiError::NotFound(body)),
        !is_success(status) && status != 404 ==> r == Err::<String, OpenCodeApiError>(
            OpenCodeApiError::HttpStatus { status, body }),
{
    if 200 <= status && status <= 299 {
        Ok(body)
    } else if status == 404 {
        Err(OpenCodeApiError::NotFound(body))
    } else {
        Err(OpenCodeApiError::HttpStatus { status, body })
    }
}

/// Reads the reply to a message: accepted with 200 or 202, a missing
/// session with 404.
pub fn read_message_reply(status: u16, session_id: &str, body: String) -> (r: Result<(), OpenCodeApiError>)
    ensures
        (status == 200 || status == 202) ==> r is Ok,
        status == 404 ==> (r matches Err(OpenCodeApiError::NotFound(id)) && id@ == session_id@),
        (status != 200 && status != 202 && status != 404) ==> r == Err::<(), OpenCodeApiError>(
            OpenCodeApiError::HttpStatus { status, body }),
{
    if status == 200 || status == 202 {
        Ok(())
    } else if status == 404 {
        Err(OpenCodeApiError::NotFound(session_id.to_string()))
    } else {
        Err(OpenCodeApiError::HttpStatus { status, body })
    }
}

/// After the first try and `retries` more have failed with `last`, the
/// delay (in milliseconds) before the next try: the next configured delay,
/// as long as the failure is worth another try.
pub fn next_retry_delay(retries: usize, last: &OpenCodeApiError, delays_ms: &Vec<u64>) -> (r: Option<u64>)
    ensures
        r is Some <==> retries < delays_ms@.len() && retryable(*last),
        r matches Some(d) ==> d == delays_ms@[retries as int],
{
    if retries < delays_ms.len() && last.is_retryable() {
        Some(delays_ms[retries])
    } else {
        None
    }
}

/// Delays, in milliseconds, between the tries of a request.
pub fn default_backoff_ms() -> (r: Vec<u64>)
    ensures
        r@ == seq![1000u64, 2000, 4000],
{
    let mut v: Vec<u64> = Vec::new();
    v.push(1000);
    v.push(2000);
    v.push(4000);
    v
}

} // verus!
