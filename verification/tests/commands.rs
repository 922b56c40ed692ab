use featherfly::commands::configure::normalize_remote_url;
use featherfly::commands::diagnostics::{
    diagnostics_report, latest_log_path, DiagnosticsArgs, DiagnosticsInfo, RecentLog,
};
use featherfly::commands::install::{install_check, install_layout_dirs, InstallArgs, InstallError};
use featherfly::commands::plugin::{cargo_build_args, plugin_destination, plugins_directory};
use featherfly::commands::service_install::{
    generate_openrc_service, generate_systemd_service, resolve_init, service_install_plan,
    InitSystem, ServiceInstallArgs, ServiceInstallError,
};
use featherfly::commands::table::{commands, is_subcommand};
use featherfly::commands::update::{
    after_update, is_root_status, parse_channel, resolve_channel, uid_from_status,
    version_check_channel, AfterUpdate, ChannelArg, UpdateChannel,
};
use featherfly::config::LogRotation;

#[test]
fn channels_parse_in_any_case() {
    assert_eq!(parse_channel("Stable").ok(), Some(UpdateChannel::Stable));
    assert_eq!(parse_channel("NIGHTLY").ok(), Some(UpdateChannel::Nightly));
    assert_eq!(parse_channel("disabled").ok(), Some(UpdateChannel::Disabled));
    let err = parse_channel("beta").err().unwrap();
    assert_eq!(err.message(), "invalid update channel: beta");
}

#[test]
fn channel_resolution_order() {
    assert_eq!(resolve_channel(Some(ChannelArg::Nightly), Some(UpdateChannel::Stable)), UpdateChannel::Nightly);
    assert_eq!(resolve_channel(None, Some(UpdateChannel::Nightly)), UpdateChannel::Nightly);
    assert_eq!(resolve_channel(None, None), UpdateChannel::Stable);
    assert_eq!(version_check_channel(None, None).ok(), Some(UpdateChannel::Stable));
    assert_eq!(version_check_channel(Some("nightly"), None).ok(), Some(UpdateChannel::Nightly));
    assert!(version_check_channel(Some("x"), Some(UpdateChannel::Nightly)).is_err());
}

#[test]
fn uid_is_read_from_proc_status() {
    let status = "Name:\tfeatherfly\nUmask:\t0022\nUid:\t0\t0\t0\t0\nGid:\t0\t0\t0\t0\n";
    assert_eq!(uid_from_status(status), Some(0));
    assert!(is_root_status(Some(status)));
    let user = "Name:\tx\nUid:\t1000\t1000\t1000\t1000\n";
    assert_eq!(uid_from_status(user), Some(1000));
    assert!(!is_root_status(Some(user)));
    assert!(!is_root_status(None));
    assert_eq!(uid_from_status("Uid:\n"), None);
    assert_eq!(uid_from_status("Uid: x\nUid: 7\n"), Some(7));
}

#[test]
fn after_update_steps() {
    assert_eq!(after_update(true, true), AfterUpdate::Restart);
    assert_eq!(after_update(false, true), AfterUpdate::HintRestart);
    assert_eq!(after_update(false, false), AfterUpdate::Nothing);
}

#[test]
fn service_files_name_the_binary() {
    let unit = generate_systemd_service("/usr/local/bin/featherfly");
    assert!(unit.starts_with("[Unit]\nDescription=FeatherFly Web Hosting Daemon\n"));
    assert!(unit.contains("\nExecStart=/usr/local/bin/featherfly\nRestart=on-failure\n"));
    assert!(unit.ends_with("WantedBy=multi-user.target\n"));
    let script = generate_openrc_service("/usr/bin/ff");
    assert!(script.starts_with("#!/sbin/openrc-run\n"));
    assert!(script.contains("command=\"/usr/bin/ff\"\n"));
    assert!(script.ends_with("depend() {\n    need net\n}\n"));
}

#[test]
fn init_system_detection() {
    assert_eq!(resolve_init(InitSystem::Auto, true, true), Some(InitSystem::Systemd));
    assert_eq!(resolve_init(InitSystem::Auto, false, true), Some(InitSystem::Openrc));
    assert_eq!(resolve_init(InitSystem::Auto, false, false), None);
    assert_eq!(resolve_init(InitSystem::Openrc, true, false), Some(InitSystem::Openrc));
    assert_eq!(InitSystem::default(), InitSystem::Auto);
}

#[test]
fn service_install_refuses_existing_files() {
    let args = ServiceInstallArgs { override_existing: false, init: InitSystem::Systemd };
    let r = service_install_plan(&args, true, false, true, false, "/bin/ff");
    assert_eq!(r.err(), Some(ServiceInstallError::AlreadyExists));
    let args = ServiceInstallArgs { override_existing: true, init: InitSystem::Systemd };
    let plan = service_install_plan(&args, true, false, true, false, "/bin/ff").ok().unwrap();
    assert_eq!(plan.path, "/etc/systemd/system/featherfly.service");
    assert_eq!(plan.commands, vec![vec!["systemctl", "daemon-reload"], vec!["systemctl", "enable", "featherfly.service"]]);
    let args = ServiceInstallArgs { override_existing: false, init: InitSystem::Auto };
    let r = service_install_plan(&args, false, false, false, false, "/bin/ff");
    assert_eq!(r.err(), Some(ServiceInstallError::UndetectedInit));
    let args = ServiceInstallArgs { override_existing: false, init: InitSystem::Openrc };
    let plan = service_install_plan(&args, true, true, true, false, "/bin/ff").ok().unwrap();
    assert_eq!(plan.path, "/etc/init.d/featherfly");
    assert_eq!(plan.mode, Some(0o755));
}

#[test]
fn install_checks_in_order() {
    let args = InstallArgs { override_existing: false };
    assert_eq!(install_check(&args, false, false, true), Err(InstallError::NotRoot));
    assert_eq!(install_check(&args, true, false, true), Err(InstallError::NoSystemd));
    assert_eq!(install_check(&args, true, true, true), Err(InstallError::UnitExists));
    assert_eq!(install_check(&InstallArgs { override_existing: true }, true, true, true), Ok(()));
    assert_eq!(install_layout_dirs().len(), 6);
    assert_eq!(InstallError::NotRoot.message(), "install must be run as root");
}

#[test]
fn remote_url_is_trimmed() {
    assert_eq!(normalize_remote_url("  https://panel.example//  "), "https://panel.example");
}

#[test]
fn plugin_paths() {
    assert_eq!(cargo_build_args("/p/Cargo.toml", true), vec!["build", "--manifest-path", "/p/Cargo.toml", "--release"]);
    assert_eq!(cargo_build_args("/p/Cargo.toml", false).len(), 3);
    assert_eq!(plugins_directory(None), "/var/lib/featherfly/plugins");
    assert_eq!(plugin_destination("/var/lib/featherfly/plugins", "libhello.so"), "/var/lib/featherfly/plugins/libhello.so");
}

#[test]
fn subcommand_table() {
    assert_eq!(commands().len(), 6);
    assert!(is_subcommand("diagnostics"));
    assert!(!is_subcommand("update"));
}

fn info() -> DiagnosticsInfo {
    DiagnosticsInfo {
        version: "1.0".to_string(),
        target: "x86_64".to_string(),
        kernel: "6.1".to_string(),
        architecture: "x86_64".to_string(),
        os: "linux".to_string(),
        config_path: "/etc/featherfly/config.yml".to_string(),
        app_name: "FeatherFly".to_string(),
        debug: false,
        api_host: "0.0.0.0".to_string(),
        api_port: 9090,
        root_directory: "/var/lib/featherfly".to_string(),
        log_directory: "/var/log/featherfly".to_string(),
        tmp_directory: "/tmp/featherfly".to_string(),
        username: "featherfly".to_string(),
        pid_file: "/var/run/featherfly/daemon.pid".to_string(),
        cpu_cores: None,
        logging_enabled: true,
        level: "info".to_string(),
        latest_file: "latest.log".to_string(),
        rotation: LogRotation::Daily,
        max_files: 7,
    }
}

#[test]
fn diagnostics_report_sections_and_tail() {
    let report = diagnostics_report(&info(), &RecentLog::Read("a\nb\nc\n".to_string()), 2);
    assert!(report.starts_with("FeatherFly diagnostics report\n\nversion\n-------\nfeatherfly: 1.0\n"));
    assert!(report.contains("api listen: 0.0.0.0:9090\n"));
    assert!(report.contains("cpu cores: unknown\n"));
    assert!(report.contains("archive rotation: daily\narchive max files: 7\n"));
    assert!(report.ends_with("recent logs\n-----------\nb\nc\n"));
    let failed = RecentLog::Failed { path: "/x.log".to_string(), error: "missing".to_string() };
    let report = diagnostics_report(&info(), &failed, 50);
    assert!(report.ends_with("log read error: /x.log (missing)\n"));
    assert_eq!(DiagnosticsArgs::default().log_lines, 50);
    assert_eq!(latest_log_path("/var/log/featherfly", "latest.log"), "/var/log/featherfly/latest.log");
}
