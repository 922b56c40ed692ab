//! `featherfly version`: what it is asked to check.
use vstd::prelude::*;

verus! {

pub struct VersionArgs {
    /// Look for a newer build.
    pub check: bool,
    /// The channel to look on, by name.
    pub channel: Option<String>,
}

pub struct VersionCommand;

/// Whether a newer build is announced as `yes` or `no`.
pub fn yes_no(b: bool) -> (s: &'static str)
    ensures
        s@ == (if b {
            "yes"@
        } else {
            "no"@
        }),
{
    if b {
        "yes"
    } else {
        "no"
    }
}

} // verus!
