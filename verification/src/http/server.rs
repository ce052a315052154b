//! Decisions of the HTTP server apart from the transport: whether it runs,
//! on which address, what unknown paths get, and whether metrics are served.

use vstd::prelude::*;

use crate::config::schema::DaemonConfig;
use crate::daemon::state::DaemonState;
use crate::http::control::ControlErrorResponse;
use crate::notify::events::Timestamp;
use crate::text::{chars_eq_str, chars_of, dec, u64_to_string};

verus! {

/// Where the server listens, as `host:port` text to be parsed as a socket
/// address, and whether it listens on every interface (`0.0.0.0`).
#[derive(Debug)]
pub struct HttpPlan {
    pub address: String,
    pub all_interfaces: bool,
}

/// The server's plan under a daemon configuration: none when HTTP is
/// disabled.
pub fn http_plan(config: &DaemonConfig) -> (r: Option<HttpPlan>)
    ensures
        r is None <==> !config.http_enabled,
        r matches Some(p) ==> p.address@ == config.http_bind@ + ":"@ + dec(config.http_port as nat)
            && p.all_interfaces == (config.http_bind@ == "0.0.0.0"@),
{
    if !config.http_enabled {
        return None;
    }
    let mut address = config.http_bind.clone();
    address.append(":");
    let port = u64_to_string(config.http_port as u64);
    address.append(port.as_str());
    let bind = chars_of(config.http_bind.as_str());
    Some(HttpPlan { address, all_interfaces: chars_eq_str(bind.as_slice(), "0.0.0.0") })
}

/// HTTP status of a path that does not exist.
pub const NOT_FOUND: u16 = 404;

/// The reply to a path that does not exist.
pub fn fallback_response() -> (r: (u16, ControlErrorResponse))
    ensures
        r.0 == NOT_FOUND,
        !r.1.success,
        r.1.error.code@ == "NOT_FOUND"@,
        r.1.error.message@ == "The requested endpoint does not exist"@,
{
    (NOT_FOUND, ControlErrorResponse::new("NOT_FOUND", "The requested endpoint does not exist"))
}

/// Metrics are served unless the OpenTelemetry section turns them off.
pub fn metrics_enabled(state: &DaemonState) -> (r: bool)
    ensures
        r == match state.config_spec().otel {
            Some(o) => o.metrics_enabled,
            None => true,
        },
{
    match &state.config().otel {
        Some(o) => o.metrics_enabled,
        None => true,
    }
}

/// When the last event was broadcast.
#[derive(Debug, Clone, Copy)]
pub struct EventClock {
    last: Option<Timestamp>,
}

impl EventClock {
    pub closed spec fn last_spec(self) -> Option<Timestamp> {
        self.last
    }

    /// No event yet.
    pub fn new() -> (r: Self)
        ensures
            r.last_spec() is None,
    {
        EventClock { last: None }
    }

    /// Notes an event sent at `at`.
    pub fn record(&mut self, at: Timestamp)
        ensures
            final(self).last_spec() == Some(at),
    {
        self.last = Some(at);
    }

    /// The time of the last event, if any.
    pub fn last_event_timestamp(&self) -> (r: Option<Timestamp>)
        ensures
            r == self.last_spec(),
    {
        self.last
    }
}

} // verus!
