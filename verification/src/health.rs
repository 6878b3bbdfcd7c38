//! The health report of the service.
use vstd::prelude::*;

verus! {

/// What `GET /health` reports: a fixed status, the service's name and port, and
/// the time of the report.
#[derive(Debug, Clone)]
pub struct HealthReport {
    pub status: String,
    pub app_name: String,
    pub port: u16,
    pub timestamp: String,
}

/// The health report of a running service, with the time it is made at.
pub fn health_report(app_name: String, port: u16, timestamp: String) -> (r: HealthReport)
    ensures
        r.status@ == "API is Healthy"@,
        r.app_name@ == app_name@,
        r.port == port,
        r.timestamp@ == timestamp@,
{
    HealthReport { status: String::from_str("API is Healthy"), app_name, port, timestamp }
}

} // verus!
