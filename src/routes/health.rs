//! The health check: is the container daemon reachable, and for how long
//! has the service been up.
use vstd::prelude::*;

use crate::routes::{OK, SERVICE_UNAVAILABLE};
use crate::state::AppState;

verus! {

#[verifier::external_type_specification]
#[verifier::external_body]
pub struct ExElapsed(tokio::time::error::Elapsed);

/// How long, in seconds, the daemon's liveness probe may take before the
/// daemon counts as down.
pub const HEALTH_TIMEOUT_SECS: u64 = 1;

/// Whether the container daemon answered the liveness probe: reported to
/// clients as `ok` or `down`.
#[derive(Clone, Copy, Debug, PartialEq, Eq, Structural)]
pub enum Status {
    Up,
    Down,
}

/// The health report sent to clients.
pub struct HealthResponse {
    pub status: Status,
    /// The service's version.
    pub version: String,
    /// Whole seconds since the service started.
    pub uptime_seconds: u64,
}

/// The outcome of the probe under its time bound: `Err` where the bound
/// ran out, `Ok(Err(_))` where the daemon failed, `Ok(Ok(_))` where it
/// answered with success.
pub type ProbeOutcome = Result<Result<String, bollard::errors::Error>, tokio::time::error::Elapsed>;

/// The daemon is up only where the probe finished in time and succeeded.
pub open spec fn probe_status_spec(probe: ProbeOutcome) -> Status {
    match probe {
        Ok(Ok(_)) => Status::Up,
        _ => Status::Down,
    }
}

pub open spec fn status_code_spec(s: Status) -> u16 {
    match s {
        Status::Up => OK,
        Status::Down => SERVICE_UNAVAILABLE,
    }
}

/// The status that a probe's outcome gives; the probe's own error is not
/// passed on.
pub fn probe_status(probe: &ProbeOutcome) -> (r: Status)
    ensures
        r == probe_status_spec(*probe),
{
    match probe {
        Ok(Ok(_)) => Status::Up,
        _ => Status::Down,
    }
}

/// The HTTP status code that reports a status.
pub fn status_code(s: Status) -> (r: u16)
    ensures
        r == status_code_spec(s),
{
    match s {
        Status::Up => OK,
        Status::Down => SERVICE_UNAVAILABLE,
    }
}

/// The reply to a health check, from the probe's outcome and the uptime
/// read for it. A daemon that is down is a reply too, never a failure.
pub fn health_report(probe: ProbeOutcome, version: String, uptime_seconds: u64) -> (r: (
    u16,
    HealthResponse,
))
    ensures
        r.1.status == probe_status_spec(probe),
        r.0 == status_code_spec(r.1.status),
        r.1.version == version,
        r.1.uptime_seconds == uptime_seconds,
{
    let status = probe_status(&probe);
    (status_code(status), HealthResponse { status, version, uptime_seconds })
}

/// The reply to a health check on the shared state, given the probe's
/// outcome; the uptime is read from the state's start time.
pub fn health(state: &AppState, probe: ProbeOutcome, version: String) -> (r: (u16, HealthResponse))
    ensures
        r.1.status == probe_status_spec(probe),
        r.0 == status_code_spec(r.1.status),
        r.0 == OK || r.0 == SERVICE_UNAVAILABLE,
        r.1.version == version,
{
    let uptime_seconds = state.uptime_seconds();
    health_report(probe, version, uptime_seconds)
}

} // verus!
