use featherfly::controllers::docker::{
    docker_status, docker_unavailable_message, require_docker, EngineVersion,
};
use featherfly::docker::bootstrap::{
    installed_during_boot, needs_proxy_network, traefik_outcome, TraefikEnsureResult,
};
use featherfly::docker::containers::{
    container_plan, memory_limit_bytes, secure_host_config, summarize_containers,
    CreateContainerRequest, ListedContainer,
};
use featherfly::docker::exec::{exec_options, ExecCreateRequest};
use featherfly::docker::images::{error_pages_image, hosting_images, sort_dedup};
use featherfly::docker::logs::{logs_tail, LogsRequest};
use featherfly::docker::network::{
    bridge_network_plan, ensure_result, named_bridge_plan, site_network_name, BridgeNetworkSettings,
    ListedNetwork, NetworkEnsureResult,
};
use featherfly::docker::volume_shell::{
    parent_dir, sanitize_site_path, upload_staging_path, volume_read_args, volume_write_plan,
    SitePathError,
};

#[test]
fn require_docker_reports_disabled_configuration() {
    let Err(response) = require_docker(false, false) else {
        panic!("expected docker to be unavailable");
    };

    assert_eq!(response.status, 503);
    assert_eq!(docker_unavailable_message(false), "docker integration is disabled");
}

#[test]
fn require_docker_reports_enabled_but_unavailable() {
    let Err(response) = require_docker(false, true) else {
        panic!("expected docker to be unavailable");
    };

    assert_eq!(response.status, 503);
    assert_eq!(
        docker_unavailable_message(true),
        "docker is unavailable — check socket path and daemon status"
    );
}

#[test]
fn docker_status_reports_disabled_and_disconnected() {
    let status = docker_status(false, "/var/run/docker.sock", None, None);
    assert!(!status.connected);
    assert!(!status.enabled);
    assert_eq!(status.version, None);
    assert_eq!(status.api_version, None);
    assert_eq!(status.socket, "/var/run/docker.sock");
}

#[test]
fn docker_status_reports_versions_when_connected() {
    let status = docker_status(
        true,
        "/var/run/docker.sock",
        Some("/run/docker.sock"),
        Some(EngineVersion { version: Some("24.0.7".to_string()), api_version: Some("1.43".to_string()) }),
    );
    assert!(status.connected);
    assert_eq!(status.socket, "/run/docker.sock");
    assert_eq!(status.version.as_deref(), Some("24.0.7"));
    assert_eq!(status.api_version.as_deref(), Some("1.43"));
    assert!(require_docker(true, true).is_ok());
}

#[test]
fn sanitize_site_path_strips_and_normalizes() {
    assert_eq!(sanitize_site_path("  /public\\index.html ").unwrap(), "public/index.html");
    assert_eq!(sanitize_site_path("///a/b").unwrap(), "a/b");
    assert_eq!(sanitize_site_path("").unwrap(), "");
}

#[test]
fn sanitize_site_path_refuses_traversal() {
    assert_eq!(sanitize_site_path("../etc/passwd"), Err(SitePathError::Traversal));
    assert_eq!(sanitize_site_path("a/..\\b"), Err(SitePathError::Traversal));
    assert_eq!(SitePathError::Traversal.message(), "path traversal not allowed");
}

#[test]
fn volume_paths_and_arguments() {
    assert_eq!(parent_dir("a/b/c.txt"), "a/b");
    assert_eq!(parent_dir("c.txt"), "");
    let args = volume_read_args("vol1", "/public/index.html").ok().unwrap();
    assert_eq!(
        args,
        vec!["run", "--rm", "-v", "vol1:/data:ro", "alpine:3", "cat", "/data/public/index.html"]
    );
    assert!(volume_read_args("vol1", "../x").is_err());
    let plan = volume_write_plan("public/css/site.css").ok().unwrap();
    assert_eq!(plan.rel, "public/css/site.css");
    assert_eq!(plan.mkdir_script.as_deref(), Some("mkdir -p /data/public/css"));
    let plan = volume_write_plan("index.html").ok().unwrap();
    assert_eq!(plan.mkdir_script, None);
    assert_eq!(upload_staging_path("x1"), "/tmp/featherfly-upload-x1");
}

#[test]
fn hosting_images_are_sorted_and_unique() {
    let stack = vec!["redis:7".to_string(), "mysql:8".to_string(), "redis:7".to_string()];
    let images = hosting_images(&stack, true, true, "traefik:v3");
    assert_eq!(images, vec!["mysql:8", "nginx:alpine", "redis:7", "traefik:v3"]);
    let images = hosting_images(&stack, true, false, "traefik:v3");
    assert_eq!(images, vec!["mysql:8", "nginx:alpine", "redis:7"]);
    assert_eq!(error_pages_image(), "nginx:alpine");
}

#[test]
fn sort_dedup_orders_like_str() {
    let v = vec!["b".to_string(), "a".to_string(), "ab".to_string(), "a".to_string()];
    assert_eq!(sort_dedup(&v), vec!["a", "ab", "b"]);
}

#[test]
fn memory_limits_saturate() {
    assert_eq!(memory_limit_bytes(Some(512)), Some(536870912));
    assert_eq!(memory_limit_bytes(None), None);
    assert_eq!(memory_limit_bytes(Some(u64::MAX)), Some(u64::MAX as i64));
}

#[test]
fn host_settings_are_hardened() {
    let h = secure_host_config("bridge", 256, Some(1), Some(50000), vec![]);
    assert_eq!(h.network_mode, "bridge");
    assert_eq!(h.memory, Some(1048576));
    assert_eq!(h.memory_swap, Some(1048576));
    assert_eq!(h.cpu_quota, Some(50000));
    assert_eq!(h.pids_limit, 256);
    assert!(!h.privileged && !h.publish_all_ports && !h.auto_remove);
}

#[test]
fn container_plan_formats_env_and_ports() {
    let request = CreateContainerRequest {
        name: "web".to_string(),
        image: "nginx".to_string(),
        env: vec![("A".to_string(), "1".to_string())],
        labels: vec![("k".to_string(), "v".to_string())],
        exposed_ports: vec![80, 443],
        memory_mb: None,
        cpu_quota: None,
    };
    let plan = container_plan(&request, "featherfly", 512);
    assert_eq!(plan.env, vec!["A=1"]);
    assert_eq!(plan.exposed_ports, vec!["80/tcp", "443/tcp"]);
    assert_eq!(plan.host.port_bindings[1].host_port, "443");
    assert_eq!(plan.host.port_bindings[1].host_ip, "");
    assert_eq!(plan.host.memory, None);
}

#[test]
fn listed_containers_are_summarized() {
    let listed = vec![
        ListedContainer {
            id: Some("abc".to_string()),
            names: Some(vec!["/web".to_string()]),
            image: None,
            state: Some("running".to_string()),
            status: None,
        },
        ListedContainer { id: None, names: None, image: None, state: None, status: None },
        ListedContainer { id: Some("def".to_string()), names: None, image: None, state: None, status: None },
    ];
    let out = summarize_containers(&listed);
    assert_eq!(out.len(), 2);
    assert_eq!(out[0].name, "web");
    assert_eq!(out[0].image, "unknown");
    assert_eq!(out[0].state, "running");
    assert_eq!(out[0].status, "");
    assert_eq!(out[1].name, "def");
}

#[test]
fn exec_without_tty_attaches_stderr() {
    let o = exec_options(ExecCreateRequest { cmd: vec!["ls".to_string()], tty: false });
    assert!(o.attach_stderr && o.attach_stdout && o.attach_stdin && !o.tty);
    let o = exec_options(ExecCreateRequest { cmd: vec![], tty: true });
    assert!(!o.attach_stderr);
}

#[test]
fn logs_default_to_last_hundred_lines() {
    let r = LogsRequest::default();
    assert!(!r.follow && r.stdout && r.stderr);
    assert_eq!(logs_tail(&r), "100");
    let r = LogsRequest { follow: true, stdout: true, stderr: false, tail: Some("5".to_string()) };
    assert_eq!(logs_tail(&r), "5");
    let r = LogsRequest { follow: true, stdout: true, stderr: false, tail: None };
    assert_eq!(logs_tail(&r), "100");
}

#[test]
fn networks_are_found_by_name_or_id_prefix() {
    let cfg = BridgeNetworkSettings {
        name: "featherfly".to_string(),
        driver: "bridge".to_string(),
        subnet: "172.20.0.0/16".to_string(),
        interface: "172.20.0.1".to_string(),
        is_internal: false,
        enable_icc: false,
    };
    let none: Vec<ListedNetwork> = vec![];
    let plan = bridge_network_plan(&none, &cfg).unwrap();
    assert_eq!(plan.options, vec![("com.docker.network.bridge.enable_icc".to_string(), "false".to_string())]);
    assert_eq!(plan.ipam, Some(("172.20.0.0/16".to_string(), "172.20.0.1".to_string())));
    assert_eq!(ensure_result(&Some(plan)), NetworkEnsureResult::Created);
    let by_id = vec![ListedNetwork { name: None, id: Some("featherfly123".to_string()) }];
    assert!(bridge_network_plan(&by_id, &cfg).is_none());
    assert!(named_bridge_plan(&by_id, "featherfly").is_some());
    assert_eq!(site_network_name("demo"), "site-nw-demo");
}

#[test]
fn boot_decisions() {
    assert!(needs_proxy_network(true, "proxy", "featherfly"));
    assert!(!needs_proxy_network(true, "featherfly", "featherfly"));
    assert!(!needs_proxy_network(false, "proxy", "featherfly"));
    assert!(installed_during_boot(Some(true)));
    assert!(!installed_during_boot(None));
    assert_eq!(traefik_outcome(None), TraefikEnsureResult::Skipped);
    assert_eq!(traefik_outcome(Some(TraefikEnsureResult::Created)), TraefikEnsureResult::Created);
}
