//! Bringing up the Docker engine when it is missing: what is done, and with
//! which privileges each command runs.
use vstd::prelude::*;

use crate::text::{string_views, chars_of, concat3, eq_str, owned, trim, trim_chars};

verus! {

/// What getting the engine up takes.
#[derive(Clone, Copy, Debug, PartialEq, Eq, Structural)]
pub enum EnginePlan {
    /// The engine answers, or installing is not allowed: nothing is done.
    Nothing,
    /// Run the install script, then enable the service and wait for it.
    InstallAndStart,
    /// The binary is there: enable the service and wait for it.
    Start,
}

/// Nothing is done when the engine answers or automatic installation is
/// off; otherwise the engine is installed when its binary is missing, and
/// its service is started in either case.
pub fn engine_plan(reachable: bool, auto_install: bool, binary_present: bool) -> (p: EnginePlan)
    ensures
        p == (if reachable || !auto_install {
            EnginePlan::Nothing
        } else if !binary_present {
            EnginePlan::InstallAndStart
        } else {
            EnginePlan::Start
        }),
{
    if reachable || !auto_install {
        EnginePlan::Nothing
    } else if !binary_present {
        EnginePlan::InstallAndStart
    } else {
        EnginePlan::Start
    }
}

/// The install script: Docker's convenience script on the stable channel.
pub fn install_script() -> (s: &'static str)
    ensures
        s@ == "curl -fsSL https://get.docker.com/ | CHANNEL=stable bash"@,
{
    "curl -fsSL https://get.docker.com/ | CHANNEL=stable bash"
}

/// A command run with root's privileges: as it is for root, else through
/// `sudo -n`.
pub fn privileged_argv(is_root: bool, program: &str, args: &Vec<String>) -> (v: Vec<String>)
    ensures
        string_views(v@) == (if is_root {
            seq![program@]
        } else {
            seq!["sudo"@, "-n"@, program@]
        }) + string_views(args@),
{
    let mut v: Vec<String> = Vec::new();
    if !is_root {
        v.push(owned("sudo"));
        v.push(owned("-n"));
    }
    v.push(owned(program));
    let ghost base = string_views(v@);
    assert(base =~= (if is_root {
        seq![program@]
    } else {
        seq!["sudo"@, "-n"@, program@]
    }));
    let mut i: usize = 0;
    while i < args.len()
        invariant
            i <= args@.len(),
            string_views(v@) == base + string_views(args@.take(i as int)),
        decreases args.len() - i,
    {
        let ghost before = v@;
        v.push(owned(args[i].as_str()));
        assert(string_views(v@) =~= string_views(before).push(args@[i as int]@));
        assert(string_views(args@.take(i + 1)) =~= string_views(args@.take(i as int)).push(
            args@[i as int]@,
        ));
        i = i + 1;
    }
    assert(args@.take(args@.len() as int) =~= args@);
    v
}

/// A shell script run with root's privileges: `bash -c` for root, else
/// through `sudo -n`.
pub fn privileged_shell_argv(is_root: bool, script: &str) -> (v: Vec<String>)
    ensures
        string_views(v@) == (if is_root {
            seq!["bash"@, "-c"@, script@]
        } else {
            seq!["sudo"@, "-n"@, "bash"@, "-c"@, script@]
        }),
{
    let mut v: Vec<String> = Vec::new();
    if !is_root {
        v.push(owned("sudo"));
        v.push(owned("-n"));
    }
    v.push(owned("bash"));
    v.push(owned("-c"));
    v.push(owned(script));
    assert(string_views(v@) =~= (if is_root {
        seq!["bash"@, "-c"@, script@]
    } else {
        seq!["sudo"@, "-n"@, "bash"@, "-c"@, script@]
    }));
    v
}

/// `id -u` says root when it succeeded and printed `0`.
pub fn uid_output_is_root(success: bool, stdout: &str) -> (b: bool)
    ensures
        b == (success && trim(stdout@) == "0"@),
{
    success && eq_str(trim_chars(chars_of(stdout).as_slice()).as_slice(), "0")
}

/// How many times the socket is polled after an install, two seconds apart.
pub const SOCKET_WAIT_ATTEMPTS: u32 = 30;

pub fn socket_timeout_message(socket: &str) -> (s: String)
    ensures
        s@ == "docker socket "@ + socket@ + " did not become ready after install"@,
{
    concat3("docker socket ", socket, " did not become ready after install")
}

} // verus!
