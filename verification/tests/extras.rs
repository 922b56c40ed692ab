use featherfly::cloudpanel::api::{route_handlers, route_specs, CloudPanelLifecycle};
use featherfly::controllers::audit::{
    account_deleted_event, backup_created_event, config_applied_event, database_created_event,
    file_event, file_move_event, ftp_account_created_event, mail_account_created_event,
    webhook_deployed_event, AuditValue,
};
use featherfly::deployments::blue_green::with_document_root;
use featherfly::health::{
    collect_checks, overall_status, HealthInputs, HealthStatus, SchedulerInput, SiteReadinessInput,
};
use featherfly::controllers::metrics::metrics_text;
use featherfly::docker::stats::disk_totals;
use featherfly::api_spec::{
    api_title, documents_plugin_route, finish_operation, plugin_route_method, plugin_route_summary,
    OperationEntry, RouteMethod,
};
use featherfly::backups::new_backup_id;
use featherfly::cache::{decoded_or_empty, DatabaseRecord, SiteRecord, SiteRow};
use featherfly::databases::{removal_plan, summaries, RemovalPlan};
use featherfly::deployments::blue_green::begin_run;
use featherfly::docker::install::{
    engine_plan, install_script, privileged_argv, privileged_shell_argv, socket_timeout_message,
    uid_output_is_root, EnginePlan,
};
use featherfly::docker::volume_shell::new_upload_staging_path;

fn is_hyphenated(s: &str) -> bool {
    s.len() == 36
        && s.chars().enumerate().all(|(i, c)| {
            if [8, 13, 18, 23].contains(&i) {
                c == '-'
            } else {
                c.is_ascii_digit() || ('a'..='f').contains(&c)
            }
        })
}

#[test]
fn fresh_ids_have_uuid_form() {
    let a = new_backup_id();
    let b = new_backup_id();
    assert!(is_hyphenated(&a));
    assert_ne!(a, b);
    let p = new_upload_staging_path();
    assert!(p.starts_with("/tmp/featherfly-upload-"));
    assert!(is_hyphenated(&p["/tmp/featherfly-upload-".len()..]));
    let (run, _) = begin_run("demo", None, true, true, true, true);
    let suffix = &run.green_name["site-demo-".len()..];
    assert_eq!(suffix.len(), 32);
    assert!(suffix.chars().all(|c| c.is_ascii_digit() || ('a'..='f').contains(&c)));
    assert!(run.attach_proxy);
}

#[test]
fn operations_are_finished() {
    let e = finish_operation(OperationEntry {
        path: "/api/sites/{id}".to_string(),
        method: "get".to_string(),
        operation_id: Some("route".to_string()),
        bearer: false,
    });
    assert_eq!(e.operation_id.as_deref(), Some("get_api_sites_id"));
    assert!(e.bearer);
    let e = finish_operation(OperationEntry {
        path: "/health".to_string(),
        method: "get".to_string(),
        operation_id: Some("get_health".to_string()),
        bearer: true,
    });
    assert_eq!(e.operation_id.as_deref(), Some("get_health"));
    assert!(!e.bearer);
    assert_eq!(api_title("FeatherFly"), "FeatherFly API");
}

#[test]
fn plugin_route_methods() {
    assert_eq!(plugin_route_method("PATCH"), Some(RouteMethod::Patch));
    assert_eq!(plugin_route_method("HEAD"), None);
    assert!(documents_plugin_route(Some(RouteMethod::Get), false));
    assert!(!documents_plugin_route(Some(RouteMethod::Get), true));
    assert!(!documents_plugin_route(None, false));
    assert_eq!(plugin_route_summary("demo"), "Plugin route registered by demo");
}

#[test]
fn docker_engine_plans() {
    assert_eq!(engine_plan(true, true, false), EnginePlan::Nothing);
    assert_eq!(engine_plan(false, false, false), EnginePlan::Nothing);
    assert_eq!(engine_plan(false, true, false), EnginePlan::InstallAndStart);
    assert_eq!(engine_plan(false, true, true), EnginePlan::Start);
    assert_eq!(install_script(), "curl -fsSL https://get.docker.com/ | CHANNEL=stable bash");
    let args = vec!["enable".to_string(), "--now".to_string(), "docker".to_string()];
    assert_eq!(privileged_argv(true, "systemctl", &args), vec!["systemctl", "enable", "--now", "docker"]);
    assert_eq!(
        privileged_argv(false, "systemctl", &args),
        vec!["sudo", "-n", "systemctl", "enable", "--now", "docker"]
    );
    assert_eq!(privileged_shell_argv(false, "echo hi"), vec!["sudo", "-n", "bash", "-c", "echo hi"]);
    assert!(uid_output_is_root(true, "0\n"));
    assert!(!uid_output_is_root(true, "1000\n"));
    assert!(!uid_output_is_root(false, "0"));
    assert_eq!(
        socket_timeout_message("/var/run/docker.sock"),
        "docker socket /var/run/docker.sock did not become ready after install"
    );
}

fn record() -> DatabaseRecord {
    DatabaseRecord {
        id: "main".to_string(),
        site_id: "demo".to_string(),
        engine: "mysql".to_string(),
        container_id: Some("c1".to_string()),
        volume: None,
        username: None,
        database_name: Some("site_demo".to_string()),
        host: "db-demo-main".to_string(),
        port: 3306,
        created_at: 1,
    }
}

#[test]
fn database_removal_and_summaries() {
    assert!(matches!(removal_plan(true, &record(), false), RemovalPlan::Shared));
    match removal_plan(false, &record(), true) {
        RemovalPlan::Own { container_id, volume, force } => {
            assert_eq!(container_id.as_deref(), Some("c1"));
            assert_eq!(volume, None);
            assert!(force);
        }
        RemovalPlan::Shared => panic!("expected own container"),
    }
    let s = summaries(&vec![record()]);
    assert_eq!(s.len(), 1);
    assert_eq!(s[0].database.as_deref(), Some("site_demo"));
    assert_eq!(s[0].port, 3306);
}

#[test]
fn disk_totals_saturate() {
    assert_eq!(disk_totals(&vec![]), (0, 0));
    assert_eq!(disk_totals(&vec![(100, 40), (50, 60)]), (150, 60));
    assert_eq!(disk_totals(&vec![(u64::MAX, 0), (5, 1)]), (u64::MAX, u64::MAX));
}

#[test]
fn metrics_page_lists_five_gauges() {
    let text = metrics_text("12.5", 10, 20, 3, 2);
    assert!(text.starts_with(
        "# HELP featherfly_cpu_usage_percent Host CPU usage percent\n# TYPE featherfly_cpu_usage_percent gauge\nfeatherfly_cpu_usage_percent 12.5\n"
    ));
    assert!(text.contains("featherfly_memory_total_bytes 20\n"));
    assert!(text.ends_with("# TYPE featherfly_site_count gauge\nfeatherfly_site_count 2\n"));
    assert_eq!(text.matches("# HELP ").count(), 5);
}

#[test]
fn health_checks_come_in_order() {
    let v = collect_checks(HealthInputs {
        cache_ping: Some(Ok(())),
        docker_enabled: false,
        docker_ping: None,
        traefik_required: false,
        traefik_running: false,
        plugins: 1,
        hooks: 0,
        routes: 0,
        load_errors: 0,
        scheduler: SchedulerInput::CacheUnavailable,
        sites: SiteReadinessInput::ListFailed,
    });
    let names: Vec<&str> = v.iter().map(|c| c.name.as_str()).collect();
    assert_eq!(names, vec!["config", "sqlite_cache", "docker", "traefik", "plugins", "scheduler", "sites"]);
    assert_eq!(v[2].status, HealthStatus::Skipped);
    assert_eq!(v[6].status, HealthStatus::Unhealthy);
    assert_eq!(overall_status(&v), HealthStatus::Degraded);
}

#[test]
fn routes_are_tied_to_operations() {
    let routes = route_specs();
    let handlers = route_handlers();
    assert_eq!(routes.len(), handlers.len());
    assert_eq!(handlers[0].operation, "add_static_site");
    assert_eq!(handlers[0].command, "site:add:static");
    assert_eq!(routes[5].command, "site:delete --force");
    assert_eq!(handlers[5].command, "site:delete");
    for (r, h) in routes.iter().zip(handlers.iter()) {
        assert!(r.command.starts_with(h.command));
    }
    assert!(CloudPanelLifecycle::from_operation(handlers[6].operation).is_none());
    assert!(CloudPanelLifecycle::from_operation(handlers[15].operation).is_some());
}

#[test]
fn audit_events() {
    let e = file_move_event("site.file_moved", "demo", "public/index.html", "public/app/index.html");
    assert_eq!(e.action, "site.file_moved");
    assert_eq!(e.resource_type, "site");
    assert_eq!(e.resource_id, "demo");
    assert_eq!(e.metadata[0].0, "from");
    assert!(matches!(&e.metadata[1].1, AuditValue::Text(t) if t == "public/app/index.html"));
    let e = mail_account_created_event("demo", "mail-main", "hello@demo.example.test", Some(512));
    assert_eq!(e.action, "site.mail_account_created");
    assert!(matches!(e.metadata[2].1, AuditValue::Int(512)));
    let e = config_applied_event("/etc/featherfly/config.yml", true, false, &vec!["api.port".to_string()]);
    assert_eq!(e.action, "config.applied");
    assert_eq!(e.resource_type, "config");
    assert!(matches!(&e.metadata[2].1, AuditValue::TextList(l) if l == &vec!["api.port".to_string()]));
    let e = database_created_event("demo", "main", "mysql", "db-demo-main", 3306);
    assert!(matches!(e.metadata[3].1, AuditValue::Int(3306)));
    let e = webhook_deployed_event("demo", &None);
    assert!(matches!(e.metadata[0].1, AuditValue::Null));
    assert_eq!(file_event("site.file_uploaded", "demo", "public/index.html").metadata.len(), 1);
    assert_eq!(backup_created_event("demo", "backup-1", "/tmp/demo.tar.gz").metadata[0].0, "backup_id");
    assert_eq!(ftp_account_created_event("demo", "ftp-main", "deploy", "sftp", "public").metadata.len(), 4);
    assert_eq!(account_deleted_event("site.ftp_account_deleted", "demo", "ftp-main").metadata[0].0, "account_id");
}

#[test]
fn document_root_replaces_an_earlier_value() {
    let env = vec![
        ("A".to_string(), "1".to_string()),
        ("FEATHERFLY_DOCUMENT_ROOT".to_string(), "old".to_string()),
    ];
    let env = with_document_root(env, &Some("public".to_string()));
    assert_eq!(
        env,
        vec![
            ("A".to_string(), "1".to_string()),
            ("FEATHERFLY_DOCUMENT_ROOT".to_string(), "public".to_string()),
        ]
    );
}

fn stored_row() -> SiteRow {
    SiteRow {
        id: "s1".to_string(),
        name: "Demo".to_string(),
        domain: "demo.example".to_string(),
        egg_id: None,
        template: Some("php".to_string()),
        container_id: None,
        network: None,
        volume: None,
        git_repo: None,
        memory_mb: Some(512),
        cpu_quota: None,
        disk_quota_mb: None,
        bandwidth_mbps: None,
        status: None,
        domains: Some("[\"a.example\",\"b.example\"]".to_string()),
        document_root: None,
        site_type: None,
        variables: Some("{\"B\":\"2\",\"A\":\"1\",\"A\":\"3\"}".to_string()),
        redirects: Some("[{\"from\":\"/old\",\"to\":\"/new\"}]".to_string()),
        preview_domain: None,
        wildcard_domain: Some(2),
        created_at: 7,
    }
}

#[test]
fn site_row_becomes_a_record() {
    let site = SiteRecord::from_row(stored_row());
    assert_eq!(site.egg_id, "php");
    assert_eq!(site.status, "active");
    assert_eq!(site.site_type, "custom");
    assert_eq!(site.domains, vec!["a.example".to_string(), "b.example".to_string()]);
    assert_eq!(
        site.variables,
        vec![("A".to_string(), "3".to_string()), ("B".to_string(), "2".to_string())]
    );
    assert_eq!(site.redirects, "[{\"from\":\"/old\",\"to\":\"/new\"}]");
    assert!(site.wildcard_domain);
    assert_eq!(site.memory_mb, Some(512));
    assert_eq!(site.created_at, 7);
}

#[test]
fn site_row_with_missing_or_broken_columns() {
    let mut row = stored_row();
    row.egg_id = None;
    row.template = None;
    row.domains = Some("not json".to_string());
    row.variables = None;
    row.redirects = None;
    row.wildcard_domain = Some(0);
    let site = SiteRecord::from_row(row);
    assert_eq!(site.egg_id, "unknown");
    assert!(site.domains.is_empty());
    assert!(site.variables.is_empty());
    assert_eq!(site.redirects, "[]");
    assert!(!site.wildcard_domain);
}

#[test]
fn decoded_columns_default_to_empty() {
    assert_eq!(decoded_or_empty(Some(vec![1, 2])), vec![1, 2]);
    assert_eq!(decoded_or_empty::<i32>(None), Vec::<i32>::new());
}
