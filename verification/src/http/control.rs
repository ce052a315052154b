//! Pausing, resuming and starting sessions over HTTP.

use vstd::prelude::*;

use crate::daemon::state::DaemonState;
use crate::text::{chars_eq_str, chars_of};

verus! {

/// Success reply of a control request.
#[derive(Debug, PartialEq, Eq, Structural)]
pub struct ControlResponse {
    pub success: bool,
}

impl ControlResponse {
    /// The success reply.
    pub fn success() -> (r: Self)
        ensures
            r.success,
    {
        ControlResponse { success: true }
    }
}

/// Success reply of a new-session request, with the session's identifier.
#[derive(Debug)]
pub struct ControlResponseWithId {
    pub success: bool,
    pub session_id: String,
}

impl ControlResponseWithId {
    /// The success reply naming `session_id`.
    pub fn success(session_id: String) -> (r: Self)
        ensures
            r.success,
            r.session_id == session_id,
    {
        ControlResponseWithId { success: true, session_id }
    }
}

/// Machine-readable code and human-readable message of a failure.
#[derive(Debug)]
pub struct ErrorDetail {
    pub code: String,
    pub message: String,
}

/// Failure reply of a control request.
#[derive(Debug)]
pub struct ControlErrorResponse {
    pub success: bool,
    pub error: ErrorDetail,
}

impl ControlErrorResponse {
    /// The failure reply with `code` and `message`.
    pub fn new(code: &str, message: &str) -> (r: Self)
        ensures
            !r.success,
            r.error.code@ == code@,
            r.error.message@ == message@,
    {
        ControlErrorResponse {
            success: false,
            error: ErrorDetail { code: code.to_string(), message: message.to_string() },
        }
    }
}

/// HTTP status of a request the client got wrong.
pub const BAD_REQUEST: u16 = 400;

/// HTTP status of a failure on the daemon's side.
pub const INTERNAL_SERVER_ERROR: u16 = 500;

/// Why a control request failed, with the HTTP status to answer.
#[derive(Debug, Clone)]
pub struct ControlError {
    pub code: String,
    pub message: String,
    pub status: u16,
}

impl ControlError {
    /// An error with `code`, `message` and `status`.
    pub fn new(code: &str, message: &str, status: u16) -> (r: Self)
        ensures
            r.code@ == code@,
            r.message@ == message@,
            r.status == status,
    {
        ControlError { code: code.to_string(), message: message.to_string(), status }
    }
}

/// The reply to a failed control request.
pub fn error_response(err: &ControlError) -> (r: (u16, ControlErrorResponse))
    ensures
        r.0 == err.status,
        !r.1.success,
        r.1.error.code@ == err.code@,
        r.1.error.message@ == err.message@,
{
    (err.status, ControlErrorResponse::new(err.code.as_str(), err.message.as_str()))
}

/// Pauses monitoring; when it is already paused, `ALREADY_PAUSED` with a
/// bad-request status.
pub fn pause_daemon(daemon_state: &mut DaemonState) -> (r: Result<(), ControlError>)
    ensures
        match r {
            Ok(_) => !old(daemon_state).paused_spec(),
            Err(e) => old(daemon_state).paused_spec() && e.code@ == "ALREADY_PAUSED"@
                && e.message@ == "Daemon already paused"@ && e.status == BAD_REQUEST,
        },
        final(daemon_state).paused_spec(),
        final(daemon_state).sessions_spec() == old(daemon_state).sessions_spec(),
        final(daemon_state).resumes_spec() == old(daemon_state).resumes_spec(),
        final(daemon_state).config_spec() == old(daemon_state).config_spec(),
{
    match daemon_state.pause() {
        Ok(()) => Ok(()),
        Err(message) => {
            if chars_eq_str(chars_of(message.as_str()).as_slice(), "Daemon already paused") {
                Err(ControlError::new("ALREADY_PAUSED", message.as_str(), BAD_REQUEST))
            } else {
                Err(ControlError::new("PAUSE_ERROR", message.as_str(), INTERNAL_SERVER_ERROR))
            }
        },
    }
}

/// Resumes monitoring; when it is not paused, `NOT_PAUSED` with a
/// bad-request status.
pub fn resume_daemon(daemon_state: &mut DaemonState) -> (r: Result<(), ControlError>)
    ensures
        match r {
            Ok(_) => old(daemon_state).paused_spec()
                && final(daemon_state).resumes_spec() == old(daemon_state).resumes_spec().wrapping_add(1),
            Err(e) => !old(daemon_state).paused_spec() && e.code@ == "NOT_PAUSED"@
                && e.message@ == "Daemon is not paused"@ && e.status == BAD_REQUEST
                && final(daemon_state).resumes_spec() == old(daemon_state).resumes_spec(),
        },
        !final(daemon_state).paused_spec(),
        final(daemon_state).sessions_spec() == old(daemon_state).sessions_spec(),
        final(daemon_state).config_spec() == old(daemon_state).config_spec(),
{
    match daemon_state.resume() {
        Ok(()) => Ok(()),
        Err(message) => {
            if chars_eq_str(chars_of(message.as_str()).as_slice(), "Daemon is not paused") {
                Err(ControlError::new("NOT_PAUSED", message.as_str(), BAD_REQUEST))
            } else {
                Err(ControlError::new("RESUME_ERROR", message.as_str(), INTERNAL_SERVER_ERROR))
            }
        },
    }
}

/// Whether `s` is a UUID in lower-case hyphenated form: 36 characters,
/// hyphens at 8, 13, 18 and 23, version digit `4` at 14, lower-case
/// hexadecimal digits elsewhere.
pub open spec fn is_v4_uuid_text(s: Seq<char>) -> bool {
    &&& s.len() == 36
    &&& forall|i: int| 0 <= i < 36 ==> (#[trigger] s[i] == '-' <==> (i == 8 || i == 13 || i == 18 || i == 23))
    &&& s[14] == '4'
    &&& forall|i: int| 0 <= i < 36 && i != 8 && i != 13 && i != 18 && i != 23 ==>
            (('0' <= #[trigger] s[i] && s[i] <= '9') || ('a' <= s[i] && s[i] <= 'f'))
}

/// Calls `uuid::Uuid::new_v4` and formats it with `to_string`. The
/// identifier is random; its text is the lower-case hyphenated form with
/// version 4.
#[verifier::external_body]
fn random_session_id() -> (r: String)
    ensures
        is_v4_uuid_text(r@),
{
    uuid::Uuid::new_v4().to_string()
}

/// Counts a new session and returns its fresh identifier.
pub fn new_session_daemon(daemon_state: &mut DaemonState) -> (r: Result<String, ControlError>)
    ensures
        r matches Ok(id) && is_v4_uuid_text(id@),
        final(daemon_state).sessions_spec() == old(daemon_state).sessions_spec().wrapping_add(1),
        final(daemon_state).paused_spec() == old(daemon_state).paused_spec(),
        final(daemon_state).resumes_spec() == old(daemon_state).resumes_spec(),
        final(daemon_state).config_spec() == old(daemon_state).config_spec(),
{
    match daemon_state.new_session() {
        Ok(()) => Ok(random_session_id()),
        Err(message) => Err(ControlError::new("SESSION_ERROR", message.as_str(), INTERNAL_SERVER_ERROR)),
    }
}

} // verus!
