//! Daemon start-up decisions that do not need the network or the disk.
use vstd::prelude::*;

use crate::text::{chars_of, eq_str};

verus! {

/// What kind of container the daemon runs in, from `OCI_CONTAINER`.
#[derive(Clone, Copy, Debug, PartialEq, Eq, Structural)]
pub enum AppContainerType {
    /// The official image (`OCI_CONTAINER=official`).
    Official,
    /// Some other container.
    Unknown,
    /// Not in a container (the variable is unset).
    NoContainer,
}

pub fn container_type_of(oci_container: Option<&str>) -> (t: AppContainerType)
    ensures
        t == (match oci_container {
            Some(v) => if v@ == "official"@ {
                AppContainerType::Official
            } else {
                AppContainerType::Unknown
            },
            None => AppContainerType::NoContainer,
        }),
{
    match oci_container {
        Some(v) => if eq_str(chars_of(v).as_slice(), "official") {
            AppContainerType::Official
        } else {
            AppContainerType::Unknown
        },
        None => AppContainerType::NoContainer,
    }
}

/// Did the plugins' configuration hooks change the configuration's bytes?
pub fn config_mutated(before: &[u8], after: &[u8]) -> (b: bool)
    ensures
        b == (before@ != after@),
{
    if before.len() != after.len() {
        return true;
    }
    let mut i: usize = 0;
    while i < before.len()
        invariant
            i <= before.len(),
            before@.len() == after@.len(),
            forall|k: int| 0 <= k < i ==> before@[k] == after@[k],
        decreases before.len() - i,
    {
        if before[i] != after[i] {
            return true;
        }
        i = i + 1;
    }
    assert(before@ =~= after@);
    false
}

} // verus!
