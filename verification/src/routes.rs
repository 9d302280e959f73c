//! The bodies of the HTTP API's metadata endpoints.

use vstd::prelude::*;
use crate::model::{clone_opt_string, Snapshot, API_VERSION};

verus! {

/// Body of `GET /healthz`.
#[derive(Clone, Debug, PartialEq)]
pub struct HealthResponse {
    pub status: &'static str,
    pub uptime_s: u64,
}

/// Body of `GET /v1/info`.
#[derive(Clone, Debug, PartialEq)]
pub struct InfoResponse {
    pub backend_version: &'static str,
    pub api_version: &'static str,
    pub host: String,
    pub kernel: Option<String>,
    pub cpu_model: Option<String>,
    pub logical_cores: u32,
    pub physical_cores: Option<u32>,
}

/// The liveness answer of a daemon that has been up for `uptime_s` seconds.
pub fn health_response(uptime_s: u64) -> (r: HealthResponse)
    ensures
        r.status@ == "ok"@,
        r.uptime_s == uptime_s,
{
    HealthResponse { status: "ok", uptime_s }
}

/// The metadata of the latest snapshot, for a daemon of version
/// `backend_version`.
pub fn info_response(snap: &Snapshot, backend_version: &'static str) -> (r: InfoResponse)
    ensures
        r.backend_version == backend_version,
        r.api_version@ == API_VERSION@,
        r.host@ == snap.host@,
        r.kernel == snap.kernel,
        r.cpu_model == snap.cpu.model,
        r.logical_cores == snap.cpu.logical_cores,
        r.physical_cores == snap.cpu.physical_cores,
{
    InfoResponse {
        backend_version,
        api_version: API_VERSION,
        host: snap.host.clone(),
        kernel: clone_opt_string(&snap.kernel),
        cpu_model: clone_opt_string(&snap.cpu.model),
        logical_cores: snap.cpu.logical_cores,
        physical_cores: snap.cpu.physical_cores,
    }
}

} // verus!
