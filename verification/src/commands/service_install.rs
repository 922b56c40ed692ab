//! `featherfly service-install`: which init system to install for, and the
//! service file, its place and the commands that enable it.
use vstd::prelude::*;

use crate::text::{concat3, owned, string_views};

verus! {

#[derive(Clone, Copy, Debug, PartialEq, Eq, Structural)]
pub enum InitSystem {
    Auto,
    Systemd,
    Openrc,
}

impl Default for InitSystem {
    fn default() -> (r: Self)
        ensures
            r == InitSystem::Auto,
    {
        InitSystem::Auto
    }
}

pub struct ServiceInstallArgs {
    /// Replace a service file that is already there.
    pub override_existing: bool,
    pub init: InitSystem,
}

pub struct ServiceInstallCommand;

pub open spec fn systemd_unit_head() -> Seq<char> {
    "[Unit]\nDescription=FeatherFly Web Hosting Daemon\nAfter=network.target\n\n[Service]\nUser=root\nKillMode=process\nWorkingDirectory=/etc/featherfly\nLimitNOFILE=4096\nPIDFile=/var/run/featherfly/daemon.pid\nExecStart="@
}

pub open spec fn systemd_unit_tail() -> Seq<char> {
    "\nRestart=on-failure\nStartLimitInterval=180\nStartLimitBurst=30\nRestartSec=5s\n\n[Install]\nWantedBy=multi-user.target\n"@
}

pub open spec fn openrc_script_head() -> Seq<char> {
    "#!/sbin/openrc-run\n\ndescription=\"FeatherFly Web Hosting Daemon\"\n\ncommand=\""@
}

pub open spec fn openrc_script_tail() -> Seq<char> {
    "\"\nsupervisor=\"supervise-daemon\"\npidfile=\"/var/run/featherfly/daemon.pid\"\ndirectory=\"/etc/featherfly\"\nrc_ulimit=\"-n 4096\"\n\nrespawn_delay=5\nrespawn_max=30\n\ndepend() {\n    need net\n}\n"@
}

/// The systemd unit that runs `binary_path` as the daemon.
pub fn generate_systemd_service(binary_path: &str) -> (s: String)
    ensures
        s@ == systemd_unit_head() + binary_path@ + systemd_unit_tail(),
{
    concat3(
        "[Unit]\nDescription=FeatherFly Web Hosting Daemon\nAfter=network.target\n\n[Service]\nUser=root\nKillMode=process\nWorkingDirectory=/etc/featherfly\nLimitNOFILE=4096\nPIDFile=/var/run/featherfly/daemon.pid\nExecStart=",
        binary_path,
        "\nRestart=on-failure\nStartLimitInterval=180\nStartLimitBurst=30\nRestartSec=5s\n\n[Install]\nWantedBy=multi-user.target\n",
    )
}

/// The OpenRC script that supervises `binary_path` as the daemon.
pub fn generate_openrc_service(binary_path: &str) -> (s: String)
    ensures
        s@ == openrc_script_head() + binary_path@ + openrc_script_tail(),
{
    concat3(
        "#!/sbin/openrc-run\n\ndescription=\"FeatherFly Web Hosting Daemon\"\n\ncommand=\"",
        binary_path,
        "\"\nsupervisor=\"supervise-daemon\"\npidfile=\"/var/run/featherfly/daemon.pid\"\ndirectory=\"/etc/featherfly\"\nrc_ulimit=\"-n 4096\"\n\nrespawn_delay=5\nrespawn_max=30\n\ndepend() {\n    need net\n}\n",
    )
}

/// The init system to install for: the one asked for, or, for `auto`,
/// systemd when it runs on the host, else OpenRC when it is installed, else
/// none can be told.
pub fn resolve_init(requested: InitSystem, systemd_present: bool, openrc_present: bool) -> (r:
    Option<InitSystem>)
    ensures
        r == resolve_init_spec(requested, systemd_present, openrc_present),
{
    match requested {
        InitSystem::Auto => if systemd_present {
            Some(InitSystem::Systemd)
        } else if openrc_present {
            Some(InitSystem::Openrc)
        } else {
            None
        },
        other => Some(other),
    }
}

#[derive(Clone, Copy, Debug, PartialEq, Eq, Structural)]
pub enum ServiceInstallError {
    /// `auto` was asked for and neither systemd nor OpenRC was found.
    UndetectedInit,
    /// The service file exists and replacing it was not asked for.
    AlreadyExists,
}

impl ServiceInstallError {
    pub fn message(&self) -> (s: &'static str)
        ensures
            s@ == (match self {
                ServiceInstallError::UndetectedInit => "could not detect init system, please specify with --init"@,
                ServiceInstallError::AlreadyExists => "service file already exists, use --override to replace it"@,
            }),
    {
        match self {
            ServiceInstallError::UndetectedInit => "could not detect init system, please specify with --init",
            ServiceInstallError::AlreadyExists => "service file already exists, use --override to replace it",
        }
    }
}

/// What installing the service does: write `contents` to `path` (with
/// `mode` when given), then run each command.
pub struct ServiceInstallPlan {
    pub init: InitSystem,
    pub path: String,
    pub contents: String,
    pub mode: Option<u32>,
    pub commands: Vec<Vec<String>>,
    pub done_message: String,
}

pub open spec fn command_views(v: Seq<Vec<String>>) -> Seq<Seq<Seq<char>>> {
    v.map_values(|c: Vec<String>| string_views(c@))
}

fn args_of2(a: &str, b: &str) -> (v: Vec<String>)
    ensures
        string_views(v@) == seq![a@, b@],
{
    let mut v: Vec<String> = Vec::new();
    v.push(owned(a));
    v.push(owned(b));
    assert(string_views(v@) =~= seq![a@, b@]);
    v
}

fn args_of3(a: &str, b: &str, c: &str) -> (v: Vec<String>)
    ensures
        string_views(v@) == seq![a@, b@, c@],
{
    let mut v = args_of2(a, b);
    let ghost before = string_views(v@);
    v.push(owned(c));
    assert(string_views(v@) =~= before.push(c@));
    v
}

fn args_of4(a: &str, b: &str, c: &str, d: &str) -> (v: Vec<String>)
    ensures
        string_views(v@) == seq![a@, b@, c@, d@],
{
    let mut v = args_of3(a, b, c);
    let ghost before = string_views(v@);
    v.push(owned(d));
    assert(string_views(v@) =~= before.push(d@));
    v
}

pub open spec fn plan_is(p: ServiceInstallPlan, init: InitSystem, binary_path: Seq<char>) -> bool {
    &&& p.init == init
    &&& match init {
        InitSystem::Systemd => {
            &&& p.path@ == "/etc/systemd/system/featherfly.service"@
            &&& p.contents@ == systemd_unit_head() + binary_path + systemd_unit_tail()
            &&& p.mode is None
            &&& command_views(p.commands@) == seq![
                seq!["systemctl"@, "daemon-reload"@],
                seq!["systemctl"@, "enable"@, "featherfly.service"@],
            ]
            &&& p.done_message@ == "systemd service installed successfully"@
        },
        InitSystem::Openrc => {
            &&& p.path@ == "/etc/init.d/featherfly"@
            &&& p.contents@ == openrc_script_head() + binary_path + openrc_script_tail()
            &&& p.mode == Some(0o755u32)
            &&& command_views(p.commands@) == seq![
                seq!["rc-update"@, "add"@, "featherfly"@, "default"@],
            ]
            &&& p.done_message@ == "openrc service installed successfully"@
        },
        InitSystem::Auto => false,
    }
}

/// The whole decision of `service-install`, from what was found on the
/// host: refused when no init system can be told, or when the service file
/// of the chosen one exists and replacing it was not asked for; else the
/// file to write and the commands that enable it.
pub fn service_install_plan(
    args: &ServiceInstallArgs,
    systemd_present: bool,
    openrc_present: bool,
    systemd_unit_exists: bool,
    openrc_script_exists: bool,
    binary_path: &str,
) -> (r: Result<ServiceInstallPlan, ServiceInstallError>)
    ensures
        match resolve_init_spec(args.init, systemd_present, openrc_present) {
            None => r == Err::<ServiceInstallPlan, ServiceInstallError>(
                ServiceInstallError::UndetectedInit,
            ),
            Some(init) => {
                let exists = if init == InitSystem::Systemd {
                    systemd_unit_exists
                } else {
                    openrc_script_exists
                };
                if exists && !args.override_existing {
                    r == Err::<ServiceInstallPlan, ServiceInstallError>(
                        ServiceInstallError::AlreadyExists,
                    )
                } else {
                    r matches Ok(p) && plan_is(p, init, binary_path@)
                }
            },
        },
{
    let init = match resolve_init(args.init, systemd_present, openrc_present) {
        Some(i) => i,
        None => return Err(ServiceInstallError::UndetectedInit),
    };
    match init {
        InitSystem::Openrc => {
            if openrc_script_exists && !args.override_existing {
                return Err(ServiceInstallError::AlreadyExists);
            }
            let mut commands: Vec<Vec<String>> = Vec::new();
            commands.push(args_of4("rc-update", "add", "featherfly", "default"));
            assert(command_views(commands@) =~= seq![
                seq!["rc-update"@, "add"@, "featherfly"@, "default"@],
            ]);
            Ok(
                ServiceInstallPlan {
                    init,
                    path: owned("/etc/init.d/featherfly"),
                    contents: generate_openrc_service(binary_path),
                    mode: Some(0o755u32),
                    commands,
                    done_message: owned("openrc service installed successfully"),
                },
            )
        },
        _ => {
            if systemd_unit_exists && !args.override_existing {
                return Err(ServiceInstallError::AlreadyExists);
            }
            let mut commands: Vec<Vec<String>> = Vec::new();
            commands.push(args_of2("systemctl", "daemon-reload"));
            commands.push(args_of3("systemctl", "enable", "featherfly.service"));
            assert(command_views(commands@) =~= seq![
                seq!["systemctl"@, "daemon-reload"@],
                seq!["systemctl"@, "enable"@, "featherfly.service"@],
            ]);
            Ok(
                ServiceInstallPlan {
                    init: InitSystem::Systemd,
                    path: owned("/etc/systemd/system/featherfly.service"),
                    contents: generate_systemd_service(binary_path),
                    mode: None,
                    commands,
                    done_message: owned("systemd service installed successfully"),
                },
            )
        },
    }
}

pub open spec fn resolve_init_spec(requested: InitSystem, systemd_present: bool, openrc_present: bool) -> Option<InitSystem> {
    match requested {
        InitSystem::Auto => if systemd_present {
            Some(InitSystem::Systemd)
        } else if openrc_present {
            Some(InitSystem::Openrc)
        } else {
            None
        },
        other => Some(other),
    }
}

} // verus!
