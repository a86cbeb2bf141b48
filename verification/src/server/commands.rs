//! What the host is told when it starts, stops or queries the service.

use crate::server::params::QueryParams;
use crate::text::join_text;
use vstd::prelude::*;

verus! {

/// The answer to a command of the host.
#[derive(Debug)]
pub struct ServerReport {
    /// `ok`, `running` or `stopped`.
    pub status: &'static str,
    /// What happened, where something did.
    pub message: Option<&'static str>,
    /// The port of the service, in the answer to a status query that found
    /// it serving.
    pub port: Option<u16>,
    /// The captured parameters, in the answer to a start.
    pub params: Option<QueryParams>,
}

/// How waiting for the one-shot slot ended.
#[derive(Debug)]
pub enum CaptureWait {
    /// The slot was resolved with these parameters.
    Received(QueryParams),
    /// The slot was given up before it was resolved, or the wait timed
    /// out; the reason is the waiter's.
    Abandoned(String),
}

/// Whether `report` is what the host is told at the end of a wait for the
/// one-shot slot. Captured parameters are handed over; an abandoned wait is
/// an error that quotes the reason.
pub open spec fn reports_capture(wait: CaptureWait, report: Result<ServerReport, String>) -> bool {
    match wait {
        CaptureWait::Received(params) => {
            &&& report matches Ok(told) && told.status@ == "ok"@ && told.port is None
                && told.params == Some(params)
            &&& report matches Ok(told) && (told.message matches Some(message) && message@
                == "Authorization code received"@)
        },
        CaptureWait::Abandoned(reason) => report matches Err(message) && message@
            == "Failed to receive authorization code: "@ + reason@,
    }
}

/// Whether the service has to be stopped at the end of a wait: after an
/// abandoned wait the session is still there and holds the port.
pub open spec fn wait_calls_for_stop(wait: CaptureWait) -> bool {
    wait is Abandoned
}

/// Tells whether the service has to be stopped at the end of a wait.
pub fn stop_after_wait(wait: &CaptureWait) -> (stop: bool)
    ensures
        stop == wait_calls_for_stop(*wait),
{
    match wait {
        CaptureWait::Received(_) => false,
        CaptureWait::Abandoned(_) => true,
    }
}

/// What the host is told at the end of a wait for the one-shot slot.
pub fn capture_report(wait: CaptureWait) -> (report: Result<ServerReport, String>)
    ensures
        reports_capture(wait, report),
{
    match wait {
        CaptureWait::Received(params) => Ok(
            ServerReport {
                status: "ok",
                message: Some("Authorization code received"),
                port: None,
                params: Some(params),
            },
        ),
        CaptureWait::Abandoned(reason) => Err(
            join_text("Failed to receive authorization code: ", reason.as_str()),
        ),
    }
}

/// What the host is told after a stop that went through.
pub fn stop_report() -> (report: ServerReport)
    ensures
        report.status@ == "ok"@,
        report.message matches Some(message) && message@ == "Server stopped"@,
        report.port is None,
        report.params is None,
{
    ServerReport { status: "ok", message: Some("Server stopped"), port: None, params: None }
}

/// What the host is told on a status query: `running` with the port where
/// the service serves, `stopped` otherwise.
pub fn status_report(port: Option<u16>) -> (report: ServerReport)
    ensures
        report.status@ == (if port is Some {
            "running"@
        } else {
            "stopped"@
        }),
        report.message is None,
        report.port == port,
        report.params is None,
{
    match port {
        Some(_) => ServerReport { status: "running", message: None, port, params: None },
        None => ServerReport { status: "stopped", message: None, port: None, params: None },
    }
}

} // verus!
