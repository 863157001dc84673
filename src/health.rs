//! Health reports of this front door.
use vstd::prelude::*;

use crate::backend::BackendTarget;
use crate::context::opt_view;
use crate::text::join2;

verus! {

/// Status of a healthy report.
pub const STATUS_OK: u16 = 200;

/// Status of a report when the backend does not answer.
pub const STATUS_SERVICE_UNAVAILABLE: u16 = 503;

/// The report of `GET /health`.
#[derive(Clone, Debug, PartialEq, Eq)]
pub struct HealthReport {
    pub status_code: u16,
    pub status: String,
    pub service: String,
    pub mode: Option<String>,
    pub error: Option<String>,
}

/// The report of `GET /api/health`: the liveness of this component alone.
#[derive(Clone, Debug, PartialEq, Eq)]
pub struct LivenessReport {
    pub status_code: u16,
    pub status: String,
    pub version: String,
}

/// The URL probed to learn whether the backend is healthy.
pub fn health_probe_url(target: &BackendTarget) -> (r: String)
    ensures
        r@ == target.base_url@ + "/health"@,
{
    join2(target.base_url.as_str(), "/health")
}

/// The health report for the outcome of a backend probe: 200 and `healthy`
/// when it answered, 503 and `unhealthy` with the reason when it did not.
pub fn health_report(backend_healthy: bool) -> (r: HealthReport)
    ensures
        r.service@ == "botui"@,
        backend_healthy ==> {
            &&& r.status_code == STATUS_OK
            &&& r.status@ == "healthy"@
            &&& opt_view(r.mode) == Some("web"@)
            &&& r.error is None
        },
        !backend_healthy ==> {
            &&& r.status_code == STATUS_SERVICE_UNAVAILABLE
            &&& r.status@ == "unhealthy"@
            &&& r.mode is None
            &&& opt_view(r.error) == Some("botserver unreachable"@)
        },
{
    let service = String::from_str("botui");
    if backend_healthy {
        HealthReport {
            status_code: STATUS_OK,
            status: String::from_str("healthy"),
            service,
            mode: Some(String::from_str("web")),
            error: None,
        }
    } else {
        HealthReport {
            status_code: STATUS_SERVICE_UNAVAILABLE,
            status: String::from_str("unhealthy"),
            service,
            mode: None,
            error: Some(String::from_str("botserver unreachable")),
        }
    }
}

/// The liveness report of this component, whatever the backend's state.
pub fn liveness_report(version: &str) -> (r: LivenessReport)
    ensures
        r.status_code == STATUS_OK,
        r.status@ == "ok"@,
        r.version@ == version@,
{
    LivenessReport {
        status_code: STATUS_OK,
        status: String::from_str("ok"),
        version: String::from_str(version),
    }
}

} // verus!
