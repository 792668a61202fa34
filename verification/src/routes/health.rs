//! The health report.
use vstd::prelude::*;

use crate::config::AppConfig;

verus! {

/// The health report: always `ok`, with the server's version and which
/// storage backends are set up.
#[derive(Debug, Clone, PartialEq, Eq)]
pub struct HealthResponse {
    pub status: &'static str,
    pub version: &'static str,
    pub ipfs_configured: bool,
    pub arweave_configured: bool,
}

/// The health report of a server with settings `config` and version
/// `version`: IPFS counts as set up when a node address is set, Arweave when
/// a gateway address is set.
pub fn health(config: &AppConfig, version: &'static str) -> (r: HealthResponse)
    ensures
        r.status@ == "ok"@,
        r.version == version,
        r.ipfs_configured == config.ipfs_api_url is Some,
        r.arweave_configured == config.arweave_gateway_url is Some,
{
    HealthResponse {
        status: "ok",
        version,
        ipfs_configured: config.ipfs_api_url.is_some(),
        arweave_configured: config.arweave_gateway_url.is_some(),
    }
}

} // verus!
