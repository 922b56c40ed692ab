//! What the daemon decides while it brings up its Docker infrastructure at
//! boot: which networks it needs and what it reports.
use vstd::prelude::*;

use crate::docker::network::NetworkEnsureResult;
use crate::text::{chars_of, eq_chars};

verus! {

/// What became of the Traefik reverse proxy.
#[derive(Clone, Copy, Debug, PartialEq, Eq, Structural)]
pub enum TraefikEnsureResult {
    Created,
    Restarted,
    AlreadyRunning,
    Skipped,
}

#[derive(Clone, Copy, Debug, PartialEq, Eq, Structural)]
pub struct SystemBootstrapSummary {
    pub docker_network: NetworkEnsureResult,
    pub proxy_network: Option<NetworkEnsureResult>,
    pub traefik: TraefikEnsureResult,
    pub docker_installed: bool,
}

/// The proxy gets a network of its own when it is enabled and its network is
/// not the daemon's bridge network.
pub fn needs_proxy_network(proxy_enabled: bool, proxy_network: &str, docker_network: &str) -> (b:
    bool)
    ensures
        b == (proxy_enabled && proxy_network@ != docker_network@),
{
    proxy_enabled && !eq_chars(chars_of(proxy_network).as_slice(), chars_of(docker_network).as_slice())
}

/// Whether Docker was installed during boot, from what the install attempt
/// reported (`None`: it failed, which boot survives).
pub fn installed_during_boot(install: Option<bool>) -> (b: bool)
    ensures
        b == (install == Some(true)),
{
    match install {
        Some(true) => true,
        _ => false,
    }
}

/// What is reported of Traefik: what provisioning gave, or `Skipped` when it
/// failed (`None`), which boot survives.
pub fn traefik_outcome(result: Option<TraefikEnsureResult>) -> (r: TraefikEnsureResult)
    ensures
        r == (match result {
            Some(t) => t,
            None => TraefikEnsureResult::Skipped,
        }),
{
    match result {
        Some(t) => t,
        None => TraefikEnsureResult::Skipped,
    }
}

} // verus!
