//! The liveness and readiness probe bodies. The surrounding process pings
//! the store and formats the clock; the decisions about what each probe
//! reports live here.

use vstd::prelude::*;
use vstd::string::*;
use crate::models::{HealthResponse, ReadinessResponse};

verus! {

/// The liveness body: always healthy, echoing the build version and the
/// formatted clock the caller supplies.
pub fn health_check(version: String, timestamp: String) -> (r: HealthResponse)
    ensures
        r.status@ == "healthy"@,
        r.version == version,
        r.timestamp == timestamp,
{
    HealthResponse { status: String::from_str("healthy"), version, timestamp }
}

/// The readiness body: ready exactly when the store answered the ping.
pub fn readiness_check(db_connected: bool, timestamp: String) -> (r: ReadinessResponse)
    ensures
        db_connected ==> r.status@ == "ready"@ && r.database@ == "connected"@,
        !db_connected ==> r.status@ == "not ready"@ && r.database@ == "disconnected"@,
        r.timestamp == timestamp,
{
    if db_connected {
        ReadinessResponse {
            status: String::from_str("ready"),
            database: String::from_str("connected"),
            timestamp,
        }
    } else {
        ReadinessResponse {
            status: String::from_str("not ready"),
            database: String::from_str("disconnected"),
            timestamp,
        }
    }
}

/// The status code a readiness probe answers with: 200 when ready, 503
/// when the store is unreachable.
pub fn readiness_status_code(db_connected: bool) -> (code: u16)
    ensures
        db_connected ==> code == 200,
        !db_connected ==> code == 503,
{
    if db_connected {
        200
    } else {
        503
    }
}

} // verus!
