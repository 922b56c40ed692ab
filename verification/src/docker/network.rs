//! Docker networks: when one already exists, and how a missing one is created.
use vstd::prelude::*;

use crate::text::{chars_of, concat2, eq_chars, has_prefix, owned, starts_with};

verus! {

#[derive(Clone, Copy, Debug, PartialEq, Eq, Structural)]
pub enum NetworkEnsureResult {
    AlreadyExists,
    Created,
}

/// What the daemon reads of a network that Docker lists.
pub struct ListedNetwork {
    pub name: Option<String>,
    pub id: Option<String>,
}

/// The settings of the daemon's own bridge network.
pub struct BridgeNetworkSettings {
    pub name: String,
    pub driver: String,
    pub subnet: String,
    pub interface: String,
    pub is_internal: bool,
    pub enable_icc: bool,
}

/// How a missing network is created.
pub struct NetworkCreatePlan {
    pub name: String,
    pub driver: String,
    pub internal: bool,
    pub check_duplicate: bool,
    pub enable_ipv6: bool,
    /// Subnet and gateway, for the daemon's own network only.
    pub ipam: Option<(String, String)>,
    /// Driver options, as key and value.
    pub options: Vec<(String, String)>,
}

/// The name of a site's private network.
pub fn site_network_name(site_id: &str) -> (s: String)
    ensures
        s@ == "site-nw-"@ + site_id@,
{
    concat2("site-nw-", site_id)
}

pub open spec fn is_named(n: ListedNetwork, name: Seq<char>) -> bool {
    n.name matches Some(x) && x@ == name
}

/// A listed network is the daemon's bridge network when its name is the
/// configured name, or its id is that name or starts with it.
pub open spec fn is_bridge(n: ListedNetwork, name: Seq<char>) -> bool {
    is_named(n, name) || (n.id matches Some(id) && (id@ == name || has_prefix(id@, name)))
}

fn listed_is_named(n: &ListedNetwork, name: &[char]) -> (b: bool)
    ensures
        b == is_named(*n, name@),
{
    match &n.name {
        Some(x) => eq_chars(chars_of(x.as_str()).as_slice(), name),
        None => false,
    }
}

/// Does a network of this name appear in `existing`?
pub fn named_network_exists(existing: &Vec<ListedNetwork>, name: &str) -> (b: bool)
    ensures
        b == exists|i: int| 0 <= i < existing@.len() && is_named(#[trigger] existing@[i], name@),
{
    let wanted = chars_of(name);
    let mut i: usize = 0;
    while i < existing.len()
        invariant
            i <= existing.len(),
            wanted@ == name@,
            forall|k: int| 0 <= k < i ==> !is_named(#[trigger] existing@[k], name@),
        decreases existing.len() - i,
    {
        if listed_is_named(&existing[i], wanted.as_slice()) {
            return true;
        }
        i = i + 1;
    }
    false
}

/// Does the daemon's bridge network appear in `existing`?
pub fn bridge_network_exists(existing: &Vec<ListedNetwork>, name: &str) -> (b: bool)
    ensures
        b == exists|i: int| 0 <= i < existing@.len() && is_bridge(#[trigger] existing@[i], name@),
{
    let wanted = chars_of(name);
    let mut i: usize = 0;
    while i < existing.len()
        invariant
            i <= existing.len(),
            wanted@ == name@,
            forall|k: int| 0 <= k < i ==> !is_bridge(#[trigger] existing@[k], name@),
        decreases existing.len() - i,
    {
        let n = &existing[i];
        let by_id = match &n.id {
            Some(id) => {
                let idc = chars_of(id.as_str());
                eq_chars(idc.as_slice(), wanted.as_slice()) || starts_with(
                    idc.as_slice(),
                    wanted.as_slice(),
                )
            },
            None => false,
        };
        if listed_is_named(n, wanted.as_slice()) || by_id {
            return true;
        }
        i = i + 1;
    }
    false
}

pub open spec fn icc_options(enable_icc: bool) -> Seq<(Seq<char>, Seq<char>)> {
    if enable_icc {
        seq![]
    } else {
        seq![("com.docker.network.bridge.enable_icc"@, "false"@)]
    }
}

pub open spec fn option_views(v: Seq<(String, String)>) -> Seq<(Seq<char>, Seq<char>)> {
    v.map_values(|p: (String, String)| (p.0@, p.1@))
}

/// What to do about the daemon's bridge network: nothing when it exists,
/// else create it with the configured driver, subnet and gateway, and with
/// inter-container traffic switched off unless the settings allow it.
pub fn bridge_network_plan(existing: &Vec<ListedNetwork>, cfg: &BridgeNetworkSettings) -> (r: Option<
    NetworkCreatePlan,
>)
    ensures
        r is None <==> exists|i: int|
            0 <= i < existing@.len() && is_bridge(#[trigger] existing@[i], cfg.name@),
        r matches Some(p) ==> {
            &&& p.name@ == cfg.name@
            &&& p.driver@ == cfg.driver@
            &&& p.internal == cfg.is_internal
            &&& p.check_duplicate
            &&& !p.enable_ipv6
            &&& p.ipam matches Some(ipam) && ipam.0@ == cfg.subnet@ && ipam.1@ == cfg.interface@
            &&& option_views(p.options@) == icc_options(cfg.enable_icc)
        },
{
    if bridge_network_exists(existing, cfg.name.as_str()) {
        return None;
    }
    let mut options: Vec<(String, String)> = Vec::new();
    if !cfg.enable_icc {
        options.push((owned("com.docker.network.bridge.enable_icc"), owned("false")));
    }
    assert(option_views(options@) =~= icc_options(cfg.enable_icc));
    Some(
        NetworkCreatePlan {
            name: cfg.name.clone(),
            driver: cfg.driver.clone(),
            internal: cfg.is_internal,
            check_duplicate: true,
            enable_ipv6: false,
            ipam: Some((cfg.subnet.clone(), cfg.interface.clone())),
            options,
        },
    )
}

/// What to do about a plain bridge network of this name (a site's network,
/// or the proxy's): nothing when one of that name exists, else create an
/// ordinary, non-internal bridge.
pub fn named_bridge_plan(existing: &Vec<ListedNetwork>, name: &str) -> (r: Option<NetworkCreatePlan>)
    ensures
        r is None <==> exists|i: int|
            0 <= i < existing@.len() && is_named(#[trigger] existing@[i], name@),
        r matches Some(p) ==> {
            &&& p.name@ == name@
            &&& p.driver@ == "bridge"@
            &&& !p.internal
            &&& p.check_duplicate
            &&& !p.enable_ipv6
            &&& p.ipam is None
            &&& p.options@.len() == 0
        },
{
    if named_network_exists(existing, name) {
        return None;
    }
    Some(
        NetworkCreatePlan {
            name: owned(name),
            driver: owned("bridge"),
            internal: false,
            check_duplicate: true,
            enable_ipv6: false,
            ipam: None,
            options: Vec::new(),
        },
    )
}

/// The outcome once the plan was carried out.
pub fn ensure_result(plan: &Option<NetworkCreatePlan>) -> (r: NetworkEnsureResult)
    ensures
        r == (if plan is None {
            NetworkEnsureResult::AlreadyExists
        } else {
            NetworkEnsureResult::Created
        }),
{
    match plan {
        None => NetworkEnsureResult::AlreadyExists,
        Some(_) => NetworkEnsureResult::Created,
    }
}

} // verus!
