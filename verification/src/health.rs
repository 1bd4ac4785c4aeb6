//! The health check.
use vstd::prelude::*;
use crate::error::{STATUS_OK, STATUS_SERVICE_UNAVAILABLE};
use crate::text::owned;

verus! {

/// The body of the health check.
pub struct HealthResponse {
    pub status: String,
    pub db: String,
}

/// The health answer: healthy when the database answers a trivial query,
/// degraded (503) otherwise.
pub fn health_report(db_ok: bool) -> (r: (u16, HealthResponse))
    ensures
        db_ok ==> r.0 == STATUS_OK && r.1.status@ == "ok"@ && r.1.db@ == "ok"@,
        !db_ok ==> r.0 == STATUS_SERVICE_UNAVAILABLE && r.1.status@ == "degraded"@ && r.1.db@ == "error"@,
{
    if db_ok {
        (STATUS_OK, HealthResponse { status: owned("ok"), db: owned("ok") })
    } else {
        (STATUS_SERVICE_UNAVAILABLE, HealthResponse { status: owned("degraded"), db: owned("error") })
    }
}

} // verus!
