//! Notification events.

use vstd::prelude::*;

verus! {

/// How serious an event is.
#[derive(Debug, Clone, Copy, PartialEq, Eq, Structural)]
pub enum EventSeverity {
    Info,
    Warning,
    Error,
}

/// `chrono`'s RFC 3339 rendering (`DateTime::<Utc>::to_rfc3339`) of the UTC
/// instant `secs` seconds and `nanos` nanoseconds after the Unix epoch.
pub uninterp spec fn rfc3339_text(secs: int, nanos: int) -> Seq<char>;

/// The instants this library handles: a nanosecond part below one second and
/// seconds well inside the range of dates `chrono` represents (years
/// -262143 to 262142).
pub open spec fn timestamp_in_range(secs: int, nanos: int) -> bool {
    -8_000_000_000_000 <= secs <= 8_000_000_000_000 && 0 <= nanos < 1_000_000_000
}

/// Calls `chrono::DateTime::<Utc>::from_timestamp` and `to_rfc3339`. For
/// arguments in range `from_timestamp` returns `Some` (its source rejects only
/// day counts outside `i32` or dates outside the supported years, and
/// nanoseconds of two seconds or more).
#[verifier::external_body]
fn format_rfc3339(secs: i64, nanos: u32) -> (r: String)
    requires
        timestamp_in_range(secs as int, nanos as int),
    ensures
        r@ == rfc3339_text(secs as int, nanos as int),
{
    match chrono::DateTime::from_timestamp(secs, nanos) {
        Some(t) => t.to_rfc3339(),
        None => String::new(),
    }
}

/// A UTC instant, as seconds and nanoseconds since the Unix epoch.
#[derive(Debug, Clone, Copy, PartialEq, Eq)]
pub struct Timestamp {
    secs: i64,
    nanos: u32,
}

impl Timestamp {
    #[verifier::type_invariant]
    spec fn in_range(self) -> bool {
        timestamp_in_range(self.secs as int, self.nanos as int)
    }

    pub closed spec fn secs_of(self) -> int {
        self.secs as int
    }

    pub closed spec fn nanos_of(self) -> int {
        self.nanos as int
    }

    /// The instant `secs` seconds and `nanos` nanoseconds after the epoch,
    /// when it is in range.
    pub fn from_unix(secs: i64, nanos: u32) -> (r: Option<Timestamp>)
        ensures
            r is Some <==> timestamp_in_range(secs as int, nanos as int),
            r matches Some(t) ==> t.secs_of() == secs && t.nanos_of() == nanos,
    {
        if -8_000_000_000_000 <= secs && secs <= 8_000_000_000_000 && nanos < 1_000_000_000 {
            Some(Timestamp { secs, nanos })
        } else {
            None
        }
    }

    pub fn secs(&self) -> (r: i64)
        ensures
            r == self.secs_of(),
    {
        self.secs
    }

    pub fn nanos(&self) -> (r: u32)
        ensures
            r == self.nanos_of(),
    {
        self.nanos
    }

    /// RFC 3339 text of the instant, with a `+00:00` offset.
    pub fn to_rfc3339(&self) -> (r: String)
        ensures
            r@ == rfc3339_text(self.secs_of(), self.nanos_of()),
    {
        proof { use_type_invariant(self); }
        format_rfc3339(self.secs, self.nanos)
    }
}

/// Events emitted by the notification system.
#[derive(Debug)]
pub enum NotificationEvent {
    SessionStopped { timestamp: Timestamp, session_path: String, stop_reason: String, details: Option<String> },
    ResumeAttempted { timestamp: Timestamp, session_path: String, strategy: String },
    ResumeSucceeded { timestamp: Timestamp, session_path: String, strategy: String, wait_time_secs: u64 },
    ResumeFailed { timestamp: Timestamp, session_path: String, strategy: String, error: String },
    DaemonStarted { timestamp: Timestamp, version: String },
    DaemonStopped { timestamp: Timestamp, reason: String },
}

pub open spec fn event_timestamp(e: NotificationEvent) -> Timestamp {
    match e {
        NotificationEvent::SessionStopped { timestamp, .. } => timestamp,
        NotificationEvent::ResumeAttempted { timestamp, .. } => timestamp,
        NotificationEvent::ResumeSucceeded { timestamp, .. } => timestamp,
        NotificationEvent::ResumeFailed { timestamp, .. } => timestamp,
        NotificationEvent::DaemonStarted { timestamp, .. } => timestamp,
        NotificationEvent::DaemonStopped { timestamp, .. } => timestamp,
    }
}

/// The snake_case name of an event's kind.
pub open spec fn event_type_text(e: NotificationEvent) -> Seq<char> {
    match e {
        NotificationEvent::SessionStopped { .. } => "session_stopped"@,
        NotificationEvent::ResumeAttempted { .. } => "resume_attempted"@,
        NotificationEvent::ResumeSucceeded { .. } => "resume_succeeded"@,
        NotificationEvent::ResumeFailed { .. } => "resume_failed"@,
        NotificationEvent::DaemonStarted { .. } => "daemon_started"@,
        NotificationEvent::DaemonStopped { .. } => "daemon_stopped"@,
    }
}

pub open spec fn event_severity(e: NotificationEvent) -> EventSeverity {
    match e {
        NotificationEvent::SessionStopped { .. } => EventSeverity::Warning,
        NotificationEvent::ResumeAttempted { .. } => EventSeverity::Info,
        NotificationEvent::ResumeSucceeded { .. } => EventSeverity::Info,
        NotificationEvent::ResumeFailed { .. } => EventSeverity::Error,
        NotificationEvent::DaemonStarted { .. } => EventSeverity::Info,
        NotificationEvent::DaemonStopped { .. } => EventSeverity::Warning,
    }
}

impl NotificationEvent {
    /// When the event happened.
    pub fn timestamp(&self) -> (r: Timestamp)
        ensures
            r == event_timestamp(*self),
    {
        match self {
            NotificationEvent::SessionStopped { timestamp, .. } => *timestamp,
            NotificationEvent::ResumeAttempted { timestamp, .. } => *timestamp,
            NotificationEvent::ResumeSucceeded { timestamp, .. } => *timestamp,
            NotificationEvent::ResumeFailed { timestamp, .. } => *timestamp,
            NotificationEvent::DaemonStarted { timestamp, .. } => *timestamp,
            NotificationEvent::DaemonStopped { timestamp, .. } => *timestamp,
        }
    }

    /// The snake_case name of the event's kind.
    pub fn event_type(&self) -> (r: &'static str)
        ensures
            r@ == event_type_text(*self),
    {
        match self {
            NotificationEvent::SessionStopped { .. } => "session_stopped",
            NotificationEvent::ResumeAttempted { .. } => "resume_attempted",
            NotificationEvent::ResumeSucceeded { .. } => "resume_succeeded",
            NotificationEvent::ResumeFailed { .. } => "resume_failed",
            NotificationEvent::DaemonStarted { .. } => "daemon_started",
            NotificationEvent::DaemonStopped { .. } => "daemon_stopped",
        }
    }

    /// How serious the event is.
    pub fn severity(&self) -> (r: EventSeverity)
        ensures
            r == event_severity(*self),
    {
        match self {
            NotificationEvent::SessionStopped { .. } => EventSeverity::Warning,
            NotificationEvent::ResumeAttempted { .. } => EventSeverity::Info,
            NotificationEvent::ResumeSucceeded { .. } => EventSeverity::Info,
            NotificationEvent::ResumeFailed { .. } => EventSeverity::Error,
            NotificationEvent::DaemonStarted { .. } => EventSeverity::Info,
            NotificationEvent::DaemonStopped { .. } => EventSeverity::Warning,
        }
    }
}

} // verus!
