//! The backend's health: a two-state machine driven by periodic probes.
use vstd::prelude::*;

verus! {

/// Seconds between two probes.
pub const PROBE_INTERVAL_SECS: u64 = 5;

/// A line written when the health state changes.
#[derive(Debug, Clone, Copy, PartialEq, Eq)]
pub enum HealthLog {
    /// The backend answered again.
    Recovered,
    /// The backend stopped answering.
    Failed,
}

impl HealthLog {
    /// The text of the log line.
    pub fn message(&self) -> (r: String)
        ensures
            r@ == match self {
                HealthLog::Recovered => "health check success"@,
                HealthLog::Failed => "health check failed"@,
            },
    {
        match self {
            HealthLog::Recovered => String::from_str("health check success"),
            HealthLog::Failed => String::from_str("health check failed"),
        }
    }
}

/// The outcome of one probe: the new flag, and the line to log, if any.
#[derive(Debug, Clone, Copy, PartialEq, Eq)]
pub struct HealthStep {
    pub healthy: bool,
    pub log: Option<HealthLog>,
}

/// The state after a probe: any completed exchange counts as healthy, a
/// transport failure as unhealthy; a line is logged on a change only.
pub open spec fn next_health(was_healthy: bool, probe_completed: bool) -> HealthStep {
    HealthStep {
        healthy: probe_completed,
        log: if was_healthy == probe_completed {
            None
        } else if probe_completed {
            Some(HealthLog::Recovered)
        } else {
            Some(HealthLog::Failed)
        },
    }
}

/// One step of the health monitor, from the flag before the probe and
/// whether the probe's HTTP exchange completed (whatever its status).
pub fn health_step(was_healthy: bool, probe_completed: bool) -> (r: HealthStep)
    ensures
        r == next_health(was_healthy, probe_completed),
{
    let log = if was_healthy == probe_completed {
        None
    } else if probe_completed {
        Some(HealthLog::Recovered)
    } else {
        Some(HealthLog::Failed)
    };
    HealthStep { healthy: probe_completed, log }
}

/// A failed probe leaves the backend unhealthy, logging one line exactly
/// when it was healthy before; a second failure in a row logs nothing.
pub proof fn failures_log_once(was_healthy: bool)
    ensures
        next_health(was_healthy, false).healthy == false,
        was_healthy ==> next_health(was_healthy, false).log == Some(HealthLog::Failed),
        !was_healthy ==> next_health(was_healthy, false).log is None,
        next_health(next_health(was_healthy, false).healthy, false).log is None,
        next_health(next_health(was_healthy, false).healthy, false).healthy == false,
{
}

/// The URL of the backend's health endpoint: `http://{backend}{path}`.
pub fn health_url(backend: &str, health_path: &str) -> (r: String)
    ensures
        r@ == "http://"@ + backend@ + health_path@,
{
    let mut r = String::from_str("http://");
    r.append(backend);
    r.append(health_path);
    r
}

} // verus!
