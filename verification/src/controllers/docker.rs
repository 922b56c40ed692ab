//! The Docker status endpoint, and the answer when Docker is not available.
use vstd::prelude::*;

use super::{error_reply, reply_is, ErrorReply};
use crate::text::owned;

verus! {

pub open spec fn unavailable_message(enabled: bool) -> Seq<char> {
    if enabled {
        "docker is unavailable \u{2014} check socket path and daemon status"@
    } else {
        "docker integration is disabled"@
    }
}

/// Why Docker cannot be used: switched off, or on but not reachable.
pub fn docker_unavailable_message(enabled: bool) -> (s: &'static str)
    ensures
        s@ == unavailable_message(enabled),
{
    if enabled {
        "docker is unavailable \u{2014} check socket path and daemon status"
    } else {
        "docker integration is disabled"
    }
}

/// Handlers that need Docker refuse with 503 when it is not connected.
pub fn require_docker(connected: bool, enabled: bool) -> (r: Result<(), ErrorReply>)
    ensures
        connected ==> r is Ok,
        !connected ==> (r matches Err(e) && reply_is(e, 503, unavailable_message(enabled))),
{
    if connected {
        Ok(())
    } else {
        Err(error_reply(503, docker_unavailable_message(enabled)))
    }
}

pub struct DockerStatus {
    pub connected: bool,
    pub enabled: bool,
    pub socket: String,
    pub version: Option<String>,
    pub api_version: Option<String>,
}

/// What Docker reported of itself: its version and API version, when the
/// version could be read.
pub struct EngineVersion {
    pub version: Option<String>,
    pub api_version: Option<String>,
}

/// The status: disconnected with the configured socket, or connected with
/// the socket in use and the versions Docker reported.
pub fn docker_status(
    enabled: bool,
    configured_socket: &str,
    connected_socket: Option<&str>,
    version: Option<EngineVersion>,
) -> (s: DockerStatus)
    ensures
        s.enabled == enabled,
        s.connected == connected_socket is Some,
        match connected_socket {
            None => s.socket@ == configured_socket@ && s.version is None && s.api_version is None,
            Some(sock) => s.socket@ == sock@ && match version {
                Some(v) => s.version == v.version && s.api_version == v.api_version,
                None => s.version is None && s.api_version is None,
            },
        },
{
    match connected_socket {
        None => DockerStatus {
            connected: false,
            enabled,
            socket: owned(configured_socket),
            version: None,
            api_version: None,
        },
        Some(sock) => {
            let (v, a) = match version {
                Some(v) => (v.version, v.api_version),
                None => (None, None),
            };
            DockerStatus { connected: true, enabled, socket: owned(sock), version: v, api_version: a }
        },
    }
}

} // verus!
