//! Site containers: how a request becomes Docker's create settings, the
//! hardened host settings every container gets, and how listed containers are
//! summarised.
use vstd::prelude::*;

use crate::text::{
    chars_of, concat2, concat3, dec_nat, opt_or, owned, string_of, strip_start, trim_start_char,
    u64_string,
    CharClass,
};

verus! {

pub struct CreateContainerRequest {
    pub name: String,
    pub image: String,
    /// Environment variables, as name and value.
    pub env: Vec<(String, String)>,
    /// Labels, as key and value.
    pub labels: Vec<(String, String)>,
    pub exposed_ports: Vec<u16>,
    pub memory_mb: Option<u64>,
    pub cpu_quota: Option<i64>,
}

pub struct ContainerSummary {
    pub id: String,
    pub name: String,
    pub image: String,
    pub state: String,
    pub status: String,
}

pub struct CreateContainerResponse {
    pub id: String,
    pub name: String,
    pub started: bool,
}

/// What the daemon reads of a container that Docker lists.
pub struct ListedContainer {
    pub id: Option<String>,
    pub names: Option<Vec<String>>,
    pub image: Option<String>,
    pub state: Option<String>,
    pub status: Option<String>,
}

/// A published port: the container's `<port>/tcp` on the same host port, on
/// every host address.
pub struct PortBinding {
    pub container_port: String,
    pub host_ip: String,
    pub host_port: String,
}

/// The host settings of a site container.
pub struct HostSettings {
    pub network_mode: String,
    pub port_bindings: Vec<PortBinding>,
    pub memory: Option<i64>,
    pub memory_swap: Option<i64>,
    pub cpu_quota: Option<i64>,
    pub pids_limit: i64,
    pub privileged: bool,
    pub publish_all_ports: bool,
    pub auto_remove: bool,
}

/// Everything Docker is asked to create a container with.
pub struct ContainerCreatePlan {
    pub name: String,
    pub image: String,
    pub env: Vec<String>,
    pub labels: Vec<(String, String)>,
    pub exposed_ports: Vec<String>,
    pub host: HostSettings,
}

/// A number of mebibytes in bytes, saturating at `u64::MAX`.
pub open spec fn mib_bytes(mb: u64) -> u64 {
    if mb * 1048576 > u64::MAX {
        u64::MAX
    } else {
        (mb * 1048576) as u64
    }
}

/// Docker's memory limit for `memory_mb`: the bytes, saturating, taken as a
/// signed number as Docker's API takes it.
pub open spec fn memory_limit(memory_mb: Option<u64>) -> Option<i64> {
    match memory_mb {
        Some(mb) => Some(mib_bytes(mb) as i64),
        None => None,
    }
}

pub fn memory_limit_bytes(memory_mb: Option<u64>) -> (r: Option<i64>)
    ensures
        r == memory_limit(memory_mb),
{
    match memory_mb {
        Some(mb) => {
            let bytes: u64 = if mb > u64::MAX / 1048576 {
                u64::MAX
            } else {
                mb * 1048576
            };
            Some(bytes as i64)
        },
        None => None,
    }
}

pub open spec fn port_key(port: u16) -> Seq<char> {
    dec_nat(port as nat) + "/tcp"@
}

pub open spec fn binding_ok(b: PortBinding, port: u16) -> bool {
    b.container_port@ == port_key(port) && b.host_ip@ == Seq::<char>::empty() && b.host_port@
        == dec_nat(port as nat)
}

/// The hardened host settings of a site container: its network, its
/// published ports, memory (with swap held to the same limit), CPU quota and
/// process limit; never privileged, never publishing every port, never
/// removed on exit.
pub fn secure_host_config(
    network_mode: &str,
    container_pid_limit: i64,
    memory_mb: Option<u64>,
    cpu_quota: Option<i64>,
    port_bindings: Vec<PortBinding>,
) -> (h: HostSettings)
    ensures
        h.network_mode@ == network_mode@,
        h.port_bindings@ == port_bindings@,
        h.memory == memory_limit(memory_mb),
        h.memory_swap == memory_limit(memory_mb),
        h.cpu_quota == cpu_quota,
        h.pids_limit == container_pid_limit,
        !h.privileged,
        !h.publish_all_ports,
        !h.auto_remove,
{
    let memory = memory_limit_bytes(memory_mb);
    HostSettings {
        network_mode: owned(network_mode),
        port_bindings,
        memory,
        memory_swap: memory,
        cpu_quota,
        pids_limit: container_pid_limit,
        privileged: false,
        publish_all_ports: false,
        auto_remove: false,
    }
}

fn port_text(port: u16) -> (s: String)
    ensures
        s@ == dec_nat(port as nat),
{
    u64_string(port as u64)
}

pub open spec fn env_entry(p: (String, String)) -> Seq<char> {
    p.0@ + "="@ + p.1@
}

/// The settings to create `request`'s container with: its environment as
/// `NAME=value` entries, its labels, each exposed port as `<port>/tcp`
/// published on the same host port, and the hardened host settings.
pub fn container_plan(
    request: &CreateContainerRequest,
    network_mode: &str,
    container_pid_limit: i64,
) -> (p: ContainerCreatePlan)
    ensures
        p.name@ == request.name@,
        p.image@ == request.image@,
        p.env@.len() == request.env@.len(),
        forall|i: int| 0 <= i < request.env@.len() ==> #[trigger] p.env@[i]@ == env_entry(request.env@[i]),
        p.labels@.len() == request.labels@.len(),
        forall|i: int|
            0 <= i < request.labels@.len() ==> (#[trigger] p.labels@[i]).0@ == request.labels@[i].0@
                && p.labels@[i].1@ == request.labels@[i].1@,
        p.exposed_ports@.len() == request.exposed_ports@.len(),
        p.host.port_bindings@.len() == request.exposed_ports@.len(),
        forall|i: int|
            0 <= i < request.exposed_ports@.len() ==> #[trigger] p.exposed_ports@[i]@ == port_key(
                request.exposed_ports@[i],
            ) && binding_ok(p.host.port_bindings@[i], request.exposed_ports@[i]),
        p.host.network_mode@ == network_mode@,
        p.host.memory == memory_limit(request.memory_mb),
        p.host.memory_swap == memory_limit(request.memory_mb),
        p.host.cpu_quota == request.cpu_quota,
        p.host.pids_limit == container_pid_limit,
        !p.host.privileged,
        !p.host.publish_all_ports,
        !p.host.auto_remove,
{
    let mut env: Vec<String> = Vec::new();
    let mut i: usize = 0;
    while i < request.env.len()
        invariant
            i <= request.env@.len(),
            env@.len() == i,
            forall|k: int| 0 <= k < i ==> #[trigger] env@[k]@ == env_entry(request.env@[k]),
        decreases request.env.len() - i,
    {
        let (k, v) = &request.env[i];
        env.push(concat3(k.as_str(), "=", v.as_str()));
        i = i + 1;
    }
    let mut labels: Vec<(String, String)> = Vec::new();
    let mut j: usize = 0;
    while j < request.labels.len()
        invariant
            j <= request.labels@.len(),
            labels@.len() == j,
            forall|k: int|
                0 <= k < j ==> (#[trigger] labels@[k]).0@ == request.labels@[k].0@ && labels@[k].1@
                    == request.labels@[k].1@,
        decreases request.labels.len() - j,
    {
        let (k, v) = &request.labels[j];
        labels.push((k.clone(), v.clone()));
        j = j + 1;
    }
    let mut exposed: Vec<String> = Vec::new();
    let mut bindings: Vec<PortBinding> = Vec::new();
    let mut n: usize = 0;
    while n < request.exposed_ports.len()
        invariant
            n <= request.exposed_ports@.len(),
            exposed@.len() == n,
            bindings@.len() == n,
            forall|k: int|
                0 <= k < n ==> #[trigger] exposed@[k]@ == port_key(request.exposed_ports@[k])
                    && binding_ok(bindings@[k], request.exposed_ports@[k]),
        decreases request.exposed_ports.len() - n,
    {
        let port = request.exposed_ports[n];
        let digits = port_text(port);
        let key = concat2(digits.as_str(), "/tcp");
        exposed.push(key.clone());
        bindings.push(PortBinding { container_port: key, host_ip: String::new(), host_port: digits });
        n = n + 1;
    }
    let host = secure_host_config(
        network_mode,
        container_pid_limit,
        request.memory_mb,
        request.cpu_quota,
        bindings,
    );
    ContainerCreatePlan {
        name: request.name.clone(),
        image: request.image.clone(),
        env,
        labels,
        exposed_ports: exposed,
        host,
    }
}

/// The answer to a create request once Docker gave the container `id`.
pub fn create_response(request: &CreateContainerRequest, id: String, start: bool) -> (r:
    CreateContainerResponse)
    ensures
        r.id@ == id@,
        r.name@ == request.name@,
        r.started == start,
{
    CreateContainerResponse { id, name: request.name.clone(), started: start }
}

fn or_text(v: &Option<String>, fallback: &str) -> (s: String)
    ensures
        s@ == (match v {
            Some(x) => x@,
            None => fallback@,
        }),
{
    match v {
        Some(x) => x.clone(),
        None => owned(fallback),
    }
}

/// The name Docker shows first for a container, or its id when it shows none.
pub open spec fn shown_name(c: ListedContainer, id: Seq<char>) -> Seq<char> {
    match c.names {
        Some(names) => if names@.len() > 0 {
            names@[0]@
        } else {
            id
        },
        None => id,
    }
}

/// The summary of a listed container, or nothing when it has no id.
pub open spec fn summary_of(c: ListedContainer, s: ContainerSummary) -> bool {
    c.id matches Some(id) && s.id@ == id@ && s.name@ == strip_start(
        shown_name(c, id@),
        CharClass::Exactly('/'),
    ) && s.image@ == opt_or(c.image, "unknown"@) && s.state@ == opt_or(c.state, "unknown"@)
        && s.status@ == opt_or(c.status, Seq::empty())
}

pub open spec fn with_id(cs: Seq<ListedContainer>) -> Seq<ListedContainer> {
    cs.filter(|c: ListedContainer| c.id is Some)
}

fn summarize(c: &ListedContainer, id: &String) -> (s: ContainerSummary)
    requires
        c.id == Some(*id),
    ensures
        summary_of(*c, s),
{
    let name = match &c.names {
        Some(names) => if names.len() > 0 {
            owned(names[0].as_str())
        } else {
            owned(id.as_str())
        },
        None => owned(id.as_str()),
    };
    assert(name@ == shown_name(*c, id@));
    let trimmed = trim_start_char(chars_of(name.as_str()).as_slice(), '/');
    let s = ContainerSummary {
        id: owned(id.as_str()),
        name: string_of(&trimmed),
        image: or_text(&c.image, "unknown"),
        state: or_text(&c.state, "unknown"),
        status: match &c.status {
            Some(x) => owned(x.as_str()),
            None => String::new(),
        },
    };
    s
}

/// The summaries of the listed containers that have an id, in the order
/// Docker listed them.
pub fn summarize_containers(listed: &Vec<ListedContainer>) -> (r: Vec<ContainerSummary>)
    ensures
        r@.len() == with_id(listed@).len(),
        forall|i: int| 0 <= i < r@.len() ==> summary_of(with_id(listed@)[i], #[trigger] r@[i]),
{
    let mut out: Vec<ContainerSummary> = Vec::new();
    let mut i: usize = 0;
    while i < listed.len()
        invariant
            i <= listed@.len(),
            out@.len() == with_id(listed@.take(i as int)).len(),
            forall|k: int|
                0 <= k < out@.len() ==> summary_of(with_id(listed@.take(i as int))[k], #[trigger] out@[k]),
        decreases listed.len() - i,
    {
        let ghost before = listed@.take(i as int);
        assert(listed@.take(i + 1) =~= before.push(listed@[i as int]));
        reveal(Seq::filter);
        assert(before.push(listed@[i as int]).drop_last() =~= before);
        let c = &listed[i];
        match &c.id {
            Some(id) => {
                let s = summarize(c, id);
                out.push(s);
                assert(with_id(listed@.take(i + 1)) =~= with_id(before).push(listed@[i as int]));
            },
            None => {
                assert(with_id(listed@.take(i + 1)) =~= with_id(before));
            },
        }
        i = i + 1;
    }
    assert(listed@.take(listed@.len() as int) =~= listed@);
    out
}

} // verus!
