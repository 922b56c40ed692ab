//! Waiting for a new site container to answer: what is probed, and what each
//! poll of the container decides.
use vstd::prelude::*;

use crate::text::{chars_of, concat2, concat3, dec_nat, owned, push_str, push_u64, string_of};

verus! {

/// How long a site container is given to pass its health check, in seconds.
pub const DEFAULT_TIMEOUT_SECS: u64 = 120;

/// How long the daemon waits between two polls, in seconds.
pub const POLL_INTERVAL_SECS: u64 = 2;

pub fn default_timeout_secs() -> (s: u64)
    ensures
        s == 120,
{
    DEFAULT_TIMEOUT_SECS
}

pub fn poll_interval_secs() -> (s: u64)
    ensures
        s == 2,
{
    POLL_INTERVAL_SECS
}

/// The path that is probed: the configured one, or `/` when none (or an
/// empty one) is configured.
pub open spec fn probe_path_of(health_path: Option<Seq<char>>) -> Seq<char> {
    match health_path {
        Some(p) => if p.len() > 0 {
            p
        } else {
            "/"@
        },
        None => "/"@,
    }
}

pub fn probe_path(health_path: Option<&str>) -> (p: String)
    ensures
        p@ == probe_path_of(
            match health_path {
                Some(h) => Some(h@),
                None => None,
            },
        ),
{
    match health_path {
        Some(h) => {
            let c = chars_of(h);
            if c.len() > 0 {
                owned(h)
            } else {
                owned("/")
            }
        },
        None => owned("/"),
    }
}

pub open spec fn probe_url_of(ip: Seq<char>, port: u16, path: Seq<char>) -> Seq<char> {
    "http://"@ + ip + ":"@ + dec_nat(port as nat) + path
}

/// The address a container is probed at.
pub fn probe_url(ip: &str, port: u16, path: &str) -> (u: String)
    ensures
        u@ == probe_url_of(ip@, port, path@),
{
    let mut v: Vec<char> = chars_of("http://");
    push_str(&mut v, ip);
    push_str(&mut v, ":");
    push_u64(&mut v, port as u64);
    push_str(&mut v, path);
    string_of(&v)
}

/// The `docker run` arguments of the probe: a throwaway container on the
/// site's network fetches the address with `wget`.
pub fn probe_args(network: &str, url: &str) -> (args: Vec<String>)
    ensures
        args@.map_values(|a: String| a@) == seq![
            "run"@,
            "--rm"@,
            "--network"@,
            network@,
            "alpine:3"@,
            "sh"@,
            "-c"@,
            "wget -q -O /dev/null --timeout=5 '"@ + url@ + "'"@,
        ],
{
    let mut args: Vec<String> = Vec::new();
    args.push(owned("run"));
    args.push(owned("--rm"));
    args.push(owned("--network"));
    args.push(owned(network));
    args.push(owned("alpine:3"));
    args.push(owned("sh"));
    args.push(owned("-c"));
    args.push(concat3("wget -q -O /dev/null --timeout=5 '", url, "'"));
    assert(args@.map_values(|a: String| a@) =~= seq![
        "run"@,
        "--rm"@,
        "--network"@,
        network@,
        "alpine:3"@,
        "sh"@,
        "-c"@,
        "wget -q -O /dev/null --timeout=5 '"@ + url@ + "'"@,
    ]);
    args
}

/// The container has no address on the site's network.
pub struct NoSiteIp;

impl NoSiteIp {
    pub fn message(&self) -> (s: &'static str)
        ensures
            s@ == "container has no IP on site network"@,
    {
        "container has no IP on site network"
    }
}

/// The container's address on the site's network, from what inspecting it
/// showed there; an empty address is none.
pub fn site_ip(found: Option<String>) -> (r: Result<String, NoSiteIp>)
    ensures
        match found {
            Some(ip) => if ip@.len() > 0 {
                r matches Ok(x) && x@ == ip@
            } else {
                r is Err
            },
            None => r is Err,
        },
{
    match found {
        Some(ip) => {
            if chars_of(ip.as_str()).len() > 0 {
                Ok(ip)
            } else {
                Err(NoSiteIp)
            }
        },
        None => Err(NoSiteIp),
    }
}

/// What one poll of the container found.
pub enum PollObservation {
    /// The container is not running.
    NotRunning,
    /// Its address could not be had; the error's text.
    NoAddress(String),
    /// The probe of its address failed.
    ProbeFailed { ip: String },
    /// The probe passed.
    ProbePassed,
}

pub enum PollDecision {
    Ready,
    /// Poll again after the interval; the error to report if time runs out.
    Retry(String),
}

pub open spec fn retry_error(obs: PollObservation, port: u16, path: Seq<char>) -> Seq<char> {
    match obs {
        PollObservation::NotRunning => "container is not running"@,
        PollObservation::NoAddress(e) => e@,
        PollObservation::ProbeFailed { ip } => "HTTP probe failed for "@ + ip@ + ":"@ + dec_nat(
            port as nat,
        ) + path,
        PollObservation::ProbePassed => Seq::empty(),
    }
}

/// A poll ends the wait when the probe passed; otherwise the wait goes on
/// with the reason that poll failed.
pub fn poll_decision(obs: PollObservation, port: u16, path: &str) -> (d: PollDecision)
    ensures
        match obs {
            PollObservation::ProbePassed => d is Ready,
            _ => d matches PollDecision::Retry(e) && e@ == retry_error(obs, port, path@),
        },
{
    match obs {
        PollObservation::NotRunning => PollDecision::Retry(owned("container is not running")),
        PollObservation::NoAddress(e) => PollDecision::Retry(e),
        PollObservation::ProbeFailed { ip } => {
            let mut v: Vec<char> = chars_of("HTTP probe failed for ");
            push_str(&mut v, ip.as_str());
            push_str(&mut v, ":");
            push_u64(&mut v, port as u64);
            push_str(&mut v, path);
            PollDecision::Retry(string_of(&v))
        },
        PollObservation::ProbePassed => PollDecision::Ready,
    }
}

/// The error before any poll has failed.
pub fn initial_wait_error() -> (s: String)
    ensures
        s@ == "container not ready"@,
{
    owned("container not ready")
}

/// The error once time ran out, with the last poll's reason.
pub fn timed_out_message(last_err: &str) -> (s: String)
    ensures
        s@ == "site health check timed out: "@ + last_err@,
{
    concat2("site health check timed out: ", last_err)
}

} // verus!
