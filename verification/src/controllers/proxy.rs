//! The reverse proxy's status as the API reports it.
use vstd::prelude::*;

verus! {

pub struct TraefikRuntimeStatus {
    pub running: bool,
    pub container_id: Option<String>,
    pub image: Option<String>,
}

pub struct ProxyStatusResponse {
    pub enabled: bool,
    pub provider: String,
    pub auto_provision: bool,
    pub tls_enabled: bool,
    pub acme_ready: bool,
    pub redirect_http_to_https: bool,
    pub compress_responses: bool,
    pub security_headers: bool,
    pub include_www_alias: bool,
    pub network: String,
    pub cert_resolver: String,
    pub traefik: TraefikRuntimeStatus,
}

} // verus!
