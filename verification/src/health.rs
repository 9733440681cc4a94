use vstd::prelude::*;

verus! {

/// The state the public health check reports.
pub struct HealthResponse {
    pub status: String,
    pub version: String,
}

pub open spec fn service_version() -> Seq<char> {
    "0.1.0"@
}

/// The health check: the service is online, at its version.
pub fn health_check() -> (r: HealthResponse)
    ensures
        r.status@ == "online"@,
        r.version@ == service_version(),
{
    HealthResponse { status: "online".to_owned(), version: "0.1.0".to_owned() }
}

} // verus!
