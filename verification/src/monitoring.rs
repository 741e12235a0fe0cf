//! Monitoring and health: heartbeat and connection figures, and the answer
//! of the health check.
use vstd::prelude::*;

verus! {

/// Heartbeat state of one charge point.
pub struct HeartbeatStatusDto {
    pub charge_point_id: String,
    pub last_heartbeat: Option<String>,
    pub last_seen: Option<String>,
    pub is_connected: bool,
    pub status: String,
    pub seconds_since_heartbeat: Option<i64>,
}

/// Connection counts over all charge points.
pub struct ConnectionStatsDto {
    pub total: usize,
    pub online: usize,
    pub offline: usize,
    pub stale: usize,
}

/// Health of one component the service depends on.
pub struct ComponentHealth {
    pub status: String,
    pub latency_ms: Option<u64>,
}

/// The answer of the health check.
pub struct HealthResponse {
    pub status: String,
    pub version: String,
    pub uptime_seconds: u64,
    pub database: ComponentHealth,
    pub connected_charge_points: u32,
}

/// The health check's answer: `ok` with HTTP 200 when the database answered
/// its ping (after `db_latency_ms` milliseconds), else `degraded` with
/// HTTP 503 and the database marked `error` without a latency.
pub fn health_report(
    db_latency_ms: Option<u64>,
    version: &str,
    uptime_seconds: u64,
    connected: usize,
) -> (r: (u16, HealthResponse))
    ensures
        r.0 == (if db_latency_ms is Some {
            200u16
        } else {
            503u16
        }),
        r.1.status@ == (if db_latency_ms is Some {
            "ok"@
        } else {
            "degraded"@
        }),
        r.1.database.status@ == (if db_latency_ms is Some {
            "ok"@
        } else {
            "error"@
        }),
        r.1.database.latency_ms == db_latency_ms,
        r.1.version@ == version@,
        r.1.uptime_seconds == uptime_seconds,
        r.1.connected_charge_points == connected as u32,
{
    let database = match db_latency_ms {
        Some(ms) => ComponentHealth { status: "ok".to_owned(), latency_ms: Some(ms) },
        None => ComponentHealth { status: "error".to_owned(), latency_ms: None },
    };
    let healthy = db_latency_ms.is_some();
    let status = if healthy {
        "ok".to_owned()
    } else {
        "degraded".to_owned()
    };
    let code: u16 = if healthy {
        200
    } else {
        503
    };
    (
        code,
        HealthResponse {
            status,
            version: version.to_owned(),
            uptime_seconds,
            database,
            connected_charge_points: connected as u32,
        },
    )
}

} // verus!
