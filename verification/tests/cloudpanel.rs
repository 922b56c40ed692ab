use featherfly::cloudpanel::api::{route_specs, CloudPanelEvent, CloudPanelLifecycle, CommandPhase};
use featherfly::cloudpanel::command::{
    cancel_message, normalize_hook_args, raw_args, redacted_argv, CliArg, HookArgsError,
};
use featherfly::cloudpanel::execute::{arguments_after_hooks, command_result, CommandRun, HookOutcome};
use featherfly::cloudpanel::parse::{
    cloudpanel_error_message, parse_master_credentials, parse_vhost_templates,
};

#[test]
fn route_specs_match_cloudpanel_api_surface() {
    let routes = route_specs();

    assert_eq!(routes.len(), 17);
    assert!(routes.iter().any(|route| {
        route.method == "DELETE" && route.path == "/api/system/cloudpanel/site/{domainName}"
    }));
    assert!(routes.iter().any(|route| {
        route.method == "PUT" && route.path == "/api/system/cloudpanel/user/{username}/resetpassword"
    }));
}

#[test]
fn cli_args_support_flags_and_secret_redaction() {
    let args = [
        CliArg::value("domainName", "example.com", false),
        CliArg::value("siteUserPassword", "secret", true),
        CliArg::flag("force"),
    ];

    let raw = args.iter().map(CliArg::raw).collect::<Result<Vec<_>, _>>().unwrap();
    let redacted = args.iter().map(CliArg::redacted).collect::<Vec<_>>();

    assert_eq!(raw, vec!["--domainName=example.com", "--siteUserPassword=secret", "--force"]);
    assert_eq!(
        redacted,
        vec!["--domainName=example.com", "--siteUserPassword=********", "--force"]
    );
}

#[test]
fn parses_master_credentials_table() {
    let output = r#"
+-----------+----------------+
| Key       | Value          |
+-----------+----------------+
| Host      | 127.0.0.1      |
| Port      | 3306           |
| User Name | root           |
| Password  | secret         |
+-----------+----------------+
"#;

    let credentials = parse_master_credentials(output).unwrap();

    assert_eq!(credentials.host, "127.0.0.1");
    assert_eq!(credentials.port, 3306);
    assert_eq!(credentials.username, "root");
    assert_eq!(credentials.password, "secret");
}

#[test]
fn parses_vhost_template_table() {
    let output = r#"
+--------------+----------------+------+
| Name         | Root Directory | Type |
+--------------+----------------+------+
| Generic      | htdocs         | php  |
+--------------+----------------+------+
"#;

    let templates = parse_vhost_templates(output);

    assert_eq!(templates.len(), 1);
    assert_eq!(templates[0].name, "Generic");
    assert_eq!(templates[0].root_directory, "htdocs");
    assert_eq!(templates[0].template_type, "php");
}

#[test]
fn lifecycle_events_map_write_operations() {
    let lifecycle = CloudPanelLifecycle::from_operation("delete_site").unwrap();
    assert_eq!(lifecycle.event(CommandPhase::Requested), CloudPanelEvent::SiteDeleteRequested);
    assert_eq!(lifecycle.event(CommandPhase::Succeeded), CloudPanelEvent::SiteDeleted);
    assert_eq!(lifecycle.event(CommandPhase::Failed), CloudPanelEvent::SiteDeleteFailed);

    assert_eq!(CloudPanelLifecycle::site_type("add_php_site"), Some("php"));
    assert!(CloudPanelLifecycle::from_operation("list_users").is_none());
}

#[test]
fn master_credentials_refuse_a_bad_port() {
    let output = "| Host | h |\n| Port | 99999 |\n| User Name | u |\n| Password | p |\n";
    assert!(parse_master_credentials(output).is_err());
}

#[test]
fn master_credentials_refuse_a_missing_value() {
    let output = "| Host | h |\n| Port | 3306 |\n";
    assert!(parse_master_credentials(output).is_err());
}

#[test]
fn raw_refuses_control_characters() {
    let arg = CliArg::value("domainName", "bad\nvalue", false);
    assert!(arg.raw().is_err());
    assert!(raw_args(&[arg]).is_err());
}

#[test]
fn redacted_argv_starts_with_binary_and_command() {
    let args = [CliArg::value("siteUserPassword", "secret", true)];
    let argv = redacted_argv("clpctl", "site:add", &args);
    assert_eq!(argv, vec!["clpctl", "site:add", "--siteUserPassword=********"]);
}

#[test]
fn cancel_message_defaults_when_blank() {
    assert_eq!(cancel_message("   "), "CloudPanel command cancelled by plugin");
    assert_eq!(cancel_message("  nope "), "nope");
}

#[test]
fn hook_args_keep_original_sensitivity() {
    let original = [CliArg::value("siteUserPassword", "secret", true), CliArg::flag("force")];
    let returned = vec![CliArg::value("siteUserPassword", "changed", false)];
    let args = normalize_hook_args(&original, returned).unwrap();
    assert_eq!(args.len(), 1);
    assert!(args[0].sensitive);
    assert_eq!(args[0].redacted(), "--siteUserPassword=********");
}

#[test]
fn hook_args_refuse_unknown_and_duplicate_names() {
    let original = [CliArg::flag("force")];
    let unknown = vec![CliArg::flag("other")];
    assert_eq!(
        normalize_hook_args(&original, unknown).err(),
        Some(HookArgsError::UnsupportedArgument)
    );
    let twice = vec![CliArg::flag("force"), CliArg::flag("force")];
    assert_eq!(
        normalize_hook_args(&original, twice).err(),
        Some(HookArgsError::DuplicateArgument)
    );
    assert_eq!(HookArgsError::InvalidJson.message(), "CloudPanel plugin returned invalid args JSON");
}

#[test]
fn error_message_prefers_stdout_then_stderr() {
    assert_eq!(cloudpanel_error_message("  out  ", "err"), "out");
    assert_eq!(cloudpanel_error_message("", " err "), "err");
}

#[test]
fn cancelled_hooks_refuse_with_400() {
    let err = arguments_after_hooks(vec![CliArg::flag("force")], HookOutcome::Cancelled("".to_string()))
        .err()
        .unwrap();
    assert_eq!(err.status, 400);
    assert_eq!(err.message, "CloudPanel command cancelled by plugin");
    let err = arguments_after_hooks(vec![CliArg::flag("force")], HookOutcome::Rewritten(None))
        .err()
        .unwrap();
    assert_eq!(err.message, "CloudPanel plugin returned invalid args JSON");
}

#[test]
fn unchanged_hooks_keep_the_arguments() {
    let (args, raw) =
        arguments_after_hooks(vec![CliArg::value("domainName", "a.example", false)], HookOutcome::Unchanged)
            .ok()
            .unwrap();
    assert_eq!(args.len(), 1);
    assert_eq!(raw, vec!["--domainName=a.example"]);
}

#[test]
fn command_results() {
    assert_eq!(command_result(CommandRun::NotStarted).err().unwrap().status, 503);
    let ok = command_result(CommandRun::Finished {
        success: true,
        stdout: "done".to_string(),
        stderr: String::new(),
    });
    assert_eq!(ok.ok().unwrap(), "done");
    let failed = command_result(CommandRun::Finished {
        success: false,
        stdout: String::new(),
        stderr: "boom".to_string(),
    });
    let e = failed.err().unwrap();
    assert_eq!(e.status, 400);
    assert_eq!(e.message, "boom");
}
