//! The connectivity probe: what an answer from the health endpoint means.

use vstd::prelude::*;

verus! {

/// Seconds the probe waits for an answer after a launch.
pub const CONNECT_PROBE_TIMEOUT_SECONDS: u64 = 10;

/// Seconds the probe waits for an answer when only the status is asked for.
pub const STATUS_PROBE_TIMEOUT_SECONDS: u64 = 5;

/// What one request to the health endpoint came to.
#[derive(Clone, Copy, Debug, PartialEq, Eq, Structural)]
pub enum ProbeOutcome {
    /// The endpoint answered with this HTTP status.
    Status(u16),
    /// No answer: timeout, refused connection, failed name lookup.
    Unreachable,
}

/// A success status, or "not found": either shows that the endpoint's host
/// was reached.
pub open spec fn status_healthy(code: u16) -> bool {
    200 <= code < 300 || code == 404
}

impl ProbeOutcome {
    pub open spec fn healthy(self) -> bool {
        match self {
            ProbeOutcome::Status(code) => status_healthy(code),
            ProbeOutcome::Unreachable => false,
        }
    }

    pub fn is_healthy(&self) -> (yes: bool)
        ensures
            yes == self.healthy(),
    {
        match self {
            ProbeOutcome::Status(code) => status_is_healthy(*code),
            ProbeOutcome::Unreachable => false,
        }
    }
}

pub fn status_is_healthy(code: u16) -> (yes: bool)
    ensures
        yes == status_healthy(code),
{
    (200 <= code && code < 300) || code == 404
}

/// The one endpoint every probe asks.
pub fn health_endpoint() -> (url: &'static str)
    ensures
        url@ == "http://192.168.1.14:8588/api/v1"@,
{
    "http://192.168.1.14:8588/api/v1"
}

/// How a status query went: the HTTP client could not even be set up, or a
/// request was made.
#[derive(Debug, PartialEq, Eq)]
pub enum StatusQuery {
    ClientUnavailable { detail: String },
    Asked(ProbeOutcome),
}

/// The answer to a status query. Only a client that could not be set up is an
/// error; an endpoint that cannot be reached is an answer, `false`.
pub fn check_vpn_status(query: StatusQuery) -> (answer: Result<bool, String>)
    ensures
        match query {
            StatusQuery::ClientUnavailable { detail } => answer matches Err(text) && text@
                == "Error creando cliente HTTP: "@ + detail@,
            StatusQuery::Asked(outcome) => answer == Ok::<bool, String>(outcome.healthy()),
        },
{
    match query {
        StatusQuery::ClientUnavailable { detail } => Err(
            String::from_str("Error creando cliente HTTP: ").concat(detail.as_str()),
        ),
        StatusQuery::Asked(outcome) => Ok(outcome.is_healthy()),
    }
}

} // verus!
