use featherfly::health::{
    build_response, cache_check, docker_check, overall_status, plugin_check, response_status_code,
    summarize_sites, traefik_check, traefik_required, HealthCheck, HealthStatus,
    SiteContainerState, SiteReadinessSummary,
};

fn check(status: HealthStatus, required: bool) -> HealthCheck {
    HealthCheck { name: "test".to_string(), status, required, message: String::new() }
}

#[test]
fn required_failure_makes_health_unhealthy() {
    let checks = [check(HealthStatus::Healthy, true), check(HealthStatus::Unhealthy, true)];
    assert_eq!(overall_status(&checks), HealthStatus::Unhealthy);
}

#[test]
fn optional_failure_makes_health_degraded() {
    let checks = [check(HealthStatus::Healthy, true), check(HealthStatus::Unhealthy, false)];
    assert_eq!(overall_status(&checks), HealthStatus::Degraded);
}

#[test]
fn skipped_checks_do_not_affect_health() {
    let checks = [check(HealthStatus::Healthy, true), check(HealthStatus::Skipped, false)];
    assert_eq!(overall_status(&checks), HealthStatus::Healthy);
}

#[test]
fn site_readiness_degrades_for_container_problems() {
    let summary = SiteReadinessSummary {
        total: 3,
        running: 1,
        not_running: 1,
        inspect_failed: 1,
        without_container: 0,
    };
    assert_eq!(summary.status(), HealthStatus::Degraded);
}

#[test]
fn site_readiness_ok_when_no_container_problems() {
    let summary = SiteReadinessSummary {
        total: 2,
        running: 1,
        without_container: 1,
        ..SiteReadinessSummary::default()
    };
    assert_eq!(summary.status(), HealthStatus::Healthy);
}

#[test]
fn plugin_load_errors_degrade_health() {
    // A registry that only recorded one failed load: no plugins, hooks or routes.
    let check = plugin_check(0, 0, 0, 1);

    assert_eq!(check.status, HealthStatus::Degraded);
    assert!(check.message.contains("1 load error"));
}

#[test]
fn plugin_check_without_errors_is_healthy_and_optional() {
    let check = plugin_check(2, 3, 4, 0);
    assert_eq!(check.status, HealthStatus::Healthy);
    assert!(!check.required);
    assert_eq!(check.message, "2 plugin(s), 3 hook(s), 4 route(s)");
}

#[test]
fn no_checks_is_healthy() {
    assert_eq!(overall_status(&[]), HealthStatus::Healthy);
}

#[test]
fn required_degraded_check_degrades() {
    let checks = [check(HealthStatus::Degraded, true)];
    assert_eq!(overall_status(&checks), HealthStatus::Degraded);
}

#[test]
fn health_status_codes() {
    assert_eq!(response_status_code(HealthStatus::Healthy), 200);
    assert_eq!(response_status_code(HealthStatus::Degraded), 200);
    assert_eq!(response_status_code(HealthStatus::Unhealthy), 503);
}

#[test]
fn summarize_sites_counts_each_state() {
    let states = [
        SiteContainerState::NoContainer,
        SiteContainerState::Running,
        SiteContainerState::NotRunning,
        SiteContainerState::InspectFailed,
        SiteContainerState::Running,
    ];
    let s = summarize_sites(&states);
    assert_eq!(s.total, 5);
    assert_eq!(s.without_container, 1);
    assert_eq!(s.running, 2);
    assert_eq!(s.not_running, 1);
    assert_eq!(s.inspect_failed, 1);
    assert_eq!(s.status(), HealthStatus::Degraded);
}

#[test]
fn traefik_required_only_for_auto_provisioned_traefik() {
    assert!(traefik_required(true, "traefik", true));
    assert!(!traefik_required(false, "traefik", true));
    assert!(!traefik_required(true, "traefik", false));
    assert!(!traefik_required(true, "caddy", true));
}

#[test]
fn traefik_check_not_running_when_required_is_unhealthy() {
    let c = traefik_check(true, false);
    assert_eq!(c.status, HealthStatus::Unhealthy);
    let c = traefik_check(false, false);
    assert_eq!(c.status, HealthStatus::Skipped);
}

#[test]
fn cache_and_docker_checks() {
    assert_eq!(cache_check(None).status, HealthStatus::Unhealthy);
    assert_eq!(cache_check(Some(Ok(()))).status, HealthStatus::Healthy);
    assert_eq!(cache_check(Some(Err("boom".to_string()))).status, HealthStatus::Unhealthy);
    assert_eq!(docker_check(false, None).status, HealthStatus::Skipped);
    assert_eq!(docker_check(true, Some(Ok("24.0".to_string()))).status, HealthStatus::Healthy);
}

#[test]
fn build_response_takes_overall_status() {
    let r = build_response(
        "1.0".to_string(),
        5,
        vec![check(HealthStatus::Healthy, true), check(HealthStatus::Unhealthy, false)],
    );
    assert_eq!(r.status, HealthStatus::Degraded);
    assert_eq!(r.uptime_seconds, 5);
}
