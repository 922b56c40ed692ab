//! `featherfly install`: the checks before installing, the layout it
//! creates and the systemd unit it writes.
use vstd::prelude::*;

verus! {

pub struct InstallArgs {
    /// Replace a service file that is already there.
    pub override_existing: bool,
}

pub struct InstallCommand;

/// Where the binary is installed.
pub fn bin_path() -> (s: &'static str)
    ensures
        s@ == "/usr/local/bin/featherfly"@,
{
    "/usr/local/bin/featherfly"
}

/// The second name the binary answers to.
pub fn alias_path() -> (s: &'static str)
    ensures
        s@ == "/usr/local/bin/featherd"@,
{
    "/usr/local/bin/featherd"
}

pub fn config_path() -> (s: &'static str)
    ensures
        s@ == "/etc/featherfly/config.yml"@,
{
    "/etc/featherfly/config.yml"
}

pub fn unit_path() -> (s: &'static str)
    ensures
        s@ == "/etc/systemd/system/featherfly.service"@,
{
    "/etc/systemd/system/featherfly.service"
}

#[derive(Clone, Copy, Debug, PartialEq, Eq, Structural)]
pub enum InstallError {
    NotRoot,
    NoSystemd,
    UnitExists,
}

impl InstallError {
    pub fn message(&self) -> (s: &'static str)
        ensures
            s@ == (match self {
                InstallError::NotRoot => "install must be run as root"@,
                InstallError::NoSystemd => "systemd was not detected on this host"@,
                InstallError::UnitExists => "/etc/systemd/system/featherfly.service already exists (use --override to replace it)"@,
            }),
    {
        match self {
            InstallError::NotRoot => "install must be run as root",
            InstallError::NoSystemd => "systemd was not detected on this host",
            InstallError::UnitExists => "/etc/systemd/system/featherfly.service already exists (use --override to replace it)",
        }
    }
}

/// Installing needs root and systemd, and replaces an existing unit only
/// when asked to; the checks come in that order.
pub fn install_check(args: &InstallArgs, is_root: bool, systemd_present: bool, unit_exists: bool) -> (r:
    Result<(), InstallError>)
    ensures
        r == (if !is_root {
            Err::<(), InstallError>(InstallError::NotRoot)
        } else if !systemd_present {
            Err(InstallError::NoSystemd)
        } else if unit_exists && !args.override_existing {
            Err(InstallError::UnitExists)
        } else {
            Ok(())
        }),
{
    if !is_root {
        Err(InstallError::NotRoot)
    } else if !systemd_present {
        Err(InstallError::NoSystemd)
    } else if unit_exists && !args.override_existing {
        Err(InstallError::UnitExists)
    } else {
        Ok(())
    }
}

pub open spec fn layout_dirs() -> Seq<Seq<char>> {
    seq![
        "/etc/featherfly"@,
        "/var/lib/featherfly"@,
        "/var/lib/featherfly/plugins"@,
        "/var/log/featherfly"@,
        "/tmp/featherfly"@,
        "/var/run/featherfly"@,
    ]
}

/// The directories of the installed layout, created in this order.
pub fn install_layout_dirs() -> (v: Vec<&'static str>)
    ensures
        v@.map_values(|d: &str| d@) == layout_dirs(),
{
    let mut v: Vec<&'static str> = Vec::new();
    v.push("/etc/featherfly");
    v.push("/var/lib/featherfly");
    v.push("/var/lib/featherfly/plugins");
    v.push("/var/log/featherfly");
    v.push("/tmp/featherfly");
    v.push("/var/run/featherfly");
    assert(v@.map_values(|d: &str| d@) =~= layout_dirs());
    v
}

pub open spec fn install_unit() -> Seq<char> {
    "[Unit]\nDescription=FeatherFly\nAfter=network-online.target\nWants=network-online.target\n\n[Service]\nType=simple\nExecStart=/usr/local/bin/featherfly\nWorkingDirectory=/etc/featherfly\nRestart=on-failure\nRestartSec=5\nLimitNOFILE=65535\nPIDFile=/var/run/featherfly/daemon.pid\n\n[Install]\nWantedBy=multi-user.target\n"@
}

/// The systemd unit that `install` writes.
pub fn install_unit_text() -> (s: &'static str)
    ensures
        s@ == install_unit(),
{
    "[Unit]\nDescription=FeatherFly\nAfter=network-online.target\nWants=network-online.target\n\n[Service]\nType=simple\nExecStart=/usr/local/bin/featherfly\nWorkingDirectory=/etc/featherfly\nRestart=on-failure\nRestartSec=5\nLimitNOFILE=65535\nPIDFile=/var/run/featherfly/daemon.pid\n\n[Install]\nWantedBy=multi-user.target\n"
}

} // verus!
