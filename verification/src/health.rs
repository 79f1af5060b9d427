//! Liveness and readiness probe replies.

use vstd::prelude::*;

verus! {

/// Probe reply body: `"ok"` when the probe succeeds, `"not_ready"` for a
/// failed readiness check.
#[derive(Debug, Clone, Copy)]
pub struct HealthResponse {
    /// Probe outcome word.
    pub status: &'static str,
}

/// Liveness: the process answers, always 200 with `"ok"`.
pub fn live() -> (r: HealthResponse)
    ensures
        r.status@ == "ok"@,
{
    HealthResponse { status: "ok" }
}

/// Readiness from the configured check's answer (`None` when no check is
/// configured, which counts as ready): 200 with `"ok"`, or 503 with
/// `"not_ready"`.
pub fn ready(check: Option<bool>) -> (r: (u16, HealthResponse))
    ensures
        (match check {
            Some(false) => r.0 == 503 && r.1.status@ == "not_ready"@,
            _ => r.0 == 200 && r.1.status@ == "ok"@,
        }),
{
    let is_ready = match check {
        Some(b) => b,
        None => true,
    };
    if is_ready {
        (200, HealthResponse { status: "ok" })
    } else {
        (503, HealthResponse { status: "not_ready" })
    }
}

} // verus!
