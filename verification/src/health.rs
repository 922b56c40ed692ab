//! Health reporting: each probe's check, the readiness of sites, and the
//! overall status that `/health` and `/ready` answer with.
use vstd::prelude::*;

use crate::cache::TaskRecord;
use crate::text::{chars_of, dec_nat, eq_str, owned, push_str, push_u64, string_of};

verus! {

#[derive(Clone, Copy, Debug, PartialEq, Eq, Structural)]
pub enum HealthStatus {
    Healthy,
    Degraded,
    Unhealthy,
    Skipped,
}

/// One probe's result. A failed required check makes the daemon unhealthy.
pub struct HealthCheck {
    pub name: String,
    pub status: HealthStatus,
    pub required: bool,
    pub message: String,
}

pub struct HealthResponse {
    pub status: HealthStatus,
    pub service: &'static str,
    pub version: String,
    pub uptime_seconds: u64,
    pub checks: Vec<HealthCheck>,
}

/// A check as its status and whether it is required.
pub open spec fn check_view(c: HealthCheck) -> (HealthStatus, bool) {
    (c.status, c.required)
}

pub open spec fn check_views(v: Seq<HealthCheck>) -> Seq<(HealthStatus, bool)> {
    v.map_values(|c: HealthCheck| check_view(c))
}

pub open spec fn some_required_unhealthy(checks: Seq<(HealthStatus, bool)>) -> bool {
    exists|i: int| 0 <= i < checks.len() && #[trigger] checks[i].1 && checks[i].0 == HealthStatus::Unhealthy
}

pub open spec fn some_failing(checks: Seq<(HealthStatus, bool)>) -> bool {
    exists|i: int|
        0 <= i < checks.len() && (#[trigger] checks[i].0 == HealthStatus::Degraded || checks[i].0
            == HealthStatus::Unhealthy)
}

/// Unhealthy when a required check is unhealthy; degraded when any check is
/// degraded or unhealthy; otherwise ok.
pub open spec fn overall_of(checks: Seq<(HealthStatus, bool)>) -> HealthStatus {
    if some_required_unhealthy(checks) {
        HealthStatus::Unhealthy
    } else if some_failing(checks) {
        HealthStatus::Degraded
    } else {
        HealthStatus::Healthy
    }
}

pub fn overall_status(checks: &[HealthCheck]) -> (s: HealthStatus)
    ensures
        s == overall_of(check_views(checks@)),
{
    let ghost cv = check_views(checks@);
    let mut i: usize = 0;
    let mut failing = false;
    while i < checks.len()
        invariant
            i <= checks.len(),
            cv == check_views(checks@),
            forall|k: int| 0 <= k < i ==> !(#[trigger] cv[k].1 && cv[k].0 == HealthStatus::Unhealthy),
            failing <==> exists|k: int|
                0 <= k < i && (#[trigger] cv[k].0 == HealthStatus::Degraded || cv[k].0
                    == HealthStatus::Unhealthy),
        decreases checks.len() - i,
    {
        assert(cv[i as int] == check_view(checks@[i as int]));
        if checks[i].required && checks[i].status == HealthStatus::Unhealthy {
            assert(cv[i as int].1 && cv[i as int].0 == HealthStatus::Unhealthy);
            return HealthStatus::Unhealthy;
        }
        if checks[i].status == HealthStatus::Degraded || checks[i].status == HealthStatus::Unhealthy {
            failing = true;
        }
        i = i + 1;
    }
    if failing {
        HealthStatus::Degraded
    } else {
        HealthStatus::Healthy
    }
}

/// A check that is skipped changes nothing of the overall status.
pub proof fn lemma_skipped_check_changes_nothing(checks: Seq<(HealthStatus, bool)>, required: bool)
    ensures
        overall_of(checks.push((HealthStatus::Skipped, required))) == overall_of(checks),
{
    let ext = checks.push((HealthStatus::Skipped, required));
    assert(some_required_unhealthy(ext) == some_required_unhealthy(checks)) by {
        if some_required_unhealthy(ext) {
            let i = choose|i: int| 0 <= i < ext.len() && #[trigger] ext[i].1 && ext[i].0 == HealthStatus::Unhealthy;
            assert(checks[i].1);
        }
        if some_required_unhealthy(checks) {
            let i = choose|i: int| 0 <= i < checks.len() && #[trigger] checks[i].1 && checks[i].0 == HealthStatus::Unhealthy;
            assert(ext[i].1);
        }
    }
    assert(some_failing(ext) == some_failing(checks)) by {
        if some_failing(ext) {
            let i = choose|i: int|
                0 <= i < ext.len() && (#[trigger] ext[i].0 == HealthStatus::Degraded || ext[i].0
                    == HealthStatus::Unhealthy);
            assert(checks[i].0 == ext[i].0);
        }
        if some_failing(checks) {
            let i = choose|i: int|
                0 <= i < checks.len() && (#[trigger] checks[i].0 == HealthStatus::Degraded
                    || checks[i].0 == HealthStatus::Unhealthy);
            assert(ext[i].0 == checks[i].0);
        }
    }
}

/// A required check that fails makes the daemon unhealthy, whatever the
/// other checks say; a failing check that is not required never does.
pub proof fn lemma_required_failure_is_unhealthy(checks: Seq<(HealthStatus, bool)>, i: int)
    requires
        0 <= i < checks.len(),
        checks[i] == (HealthStatus::Unhealthy, true),
    ensures
        overall_of(checks) == HealthStatus::Unhealthy,
{
    assert(checks[i].1 && checks[i].0 == HealthStatus::Unhealthy);
}

/// With no required check unhealthy, one failing check degrades the status.
pub proof fn lemma_optional_failure_degrades(checks: Seq<(HealthStatus, bool)>, i: int)
    requires
        0 <= i < checks.len(),
        checks[i].0 == HealthStatus::Unhealthy || checks[i].0 == HealthStatus::Degraded,
        !some_required_unhealthy(checks),
    ensures
        overall_of(checks) == HealthStatus::Degraded,
{
    assert(checks[i].0 == HealthStatus::Degraded || checks[i].0 == HealthStatus::Unhealthy);
}

/// The overall status is never "skipped".
pub proof fn lemma_overall_never_skipped(checks: Seq<(HealthStatus, bool)>)
    ensures
        overall_of(checks) != HealthStatus::Skipped,
{
}

pub open spec fn check_is(
    c: HealthCheck,
    name: Seq<char>,
    status: HealthStatus,
    required: bool,
    message: Seq<char>,
) -> bool {
    c.name@ == name && c.status == status && c.required == required && c.message@ == message
}

fn check(name: &str, status: HealthStatus, required: bool, message: String) -> (c: HealthCheck)
    ensures
        check_is(c, name@, status, required, message@),
{
    HealthCheck { name: owned(name), status, required, message }
}

/// The check that the configuration is loaded: always ok and required.
pub fn config_check() -> (c: HealthCheck)
    ensures
        check_is(c, "config"@, HealthStatus::Healthy, true, "configuration loaded"@),
{
    check("config", HealthStatus::Healthy, true, owned("configuration loaded"))
}

/// The liveness check: the process answers.
pub fn process_check() -> (c: HealthCheck)
    ensures
        check_is(c, "process"@, HealthStatus::Healthy, true, "daemon process is responding"@),
{
    check("process", HealthStatus::Healthy, true, owned("daemon process is responding"))
}

/// The cache check from the outcome of pinging the cache (`None` where there
/// is no cache). Always required.
pub fn cache_check(ping: Option<Result<(), String>>) -> (c: HealthCheck)
    ensures
        match ping {
            None => check_is(c, "sqlite_cache"@, HealthStatus::Unhealthy, true, "sqlite cache is unavailable"@),
            Some(Ok(())) => check_is(c, "sqlite_cache"@, HealthStatus::Healthy, true, "sqlite cache is reachable"@),
            Some(Err(e)) => check_is(c, "sqlite_cache"@, HealthStatus::Unhealthy, true, e@),
        },
{
    match ping {
        None => check(
            "sqlite_cache",
            HealthStatus::Unhealthy,
            true,
            owned("sqlite cache is unavailable"),
        ),
        Some(Ok(())) => check(
            "sqlite_cache",
            HealthStatus::Healthy,
            true,
            owned("sqlite cache is reachable"),
        ),
        Some(Err(e)) => check("sqlite_cache", HealthStatus::Unhealthy, true, e),
    }
}

/// The Docker check. `ping` is `None` where no Docker client could be made,
/// and otherwise the socket that answered or the ping's error.
pub fn docker_check(enabled: bool, ping: Option<Result<String, String>>) -> (c: HealthCheck)
    ensures
        match ping {
            Some(Ok(socket)) => check_is(c, "docker"@, HealthStatus::Healthy, enabled, "docker is reachable at "@ + socket@),
            Some(Err(e)) => check_is(c, "docker"@, HealthStatus::Unhealthy, enabled, e@),
            None => if enabled {
                check_is(c, "docker"@, HealthStatus::Unhealthy, true, "docker is enabled but unavailable"@)
            } else {
                check_is(c, "docker"@, HealthStatus::Skipped, false, "docker integration is disabled"@)
            },
        },
{
    match ping {
        Some(Ok(socket)) => {
            let mut m = chars_of("docker is reachable at ");
            push_str(&mut m, socket.as_str());
            check("docker", HealthStatus::Healthy, enabled, string_of(&m))
        },
        Some(Err(e)) => check("docker", HealthStatus::Unhealthy, enabled, e),
        None => if enabled {
            check(
                "docker",
                HealthStatus::Unhealthy,
                true,
                owned("docker is enabled but unavailable"),
            )
        } else {
            check("docker", HealthStatus::Skipped, false, owned("docker integration is disabled"))
        },
    }
}

/// Traefik is checked when the proxy is enabled, its provider is Traefik,
/// and the daemon provisions it.
pub fn traefik_required(proxy_enabled: bool, provider: &str, auto_provision: bool) -> (r: bool)
    ensures
        r == (proxy_enabled && provider@ == "traefik"@ && auto_provision),
{
    let p = chars_of(provider);
    proxy_enabled && eq_str(p.as_slice(), "traefik") && auto_provision
}

pub fn traefik_check(required: bool, running: bool) -> (c: HealthCheck)
    ensures
        if !required {
            check_is(c, "traefik"@, HealthStatus::Skipped, false, "Traefik auto-provision is disabled or not selected"@)
        } else if running {
            check_is(c, "traefik"@, HealthStatus::Healthy, true, "Traefik reverse proxy is running"@)
        } else {
            check_is(c, "traefik"@, HealthStatus::Unhealthy, true, "Traefik reverse proxy is not running"@)
        },
{
    if !required {
        check(
            "traefik",
            HealthStatus::Skipped,
            false,
            owned("Traefik auto-provision is disabled or not selected"),
        )
    } else if running {
        check("traefik", HealthStatus::Healthy, true, owned("Traefik reverse proxy is running"))
    } else {
        check("traefik", HealthStatus::Unhealthy, true, owned("Traefik reverse proxy is not running"))
    }
}

pub open spec fn plugin_message_of(plugins: nat, hooks: nat, routes: nat, load_errors: nat) -> Seq<
    char,
> {
    let base = dec_nat(plugins) + " plugin(s), "@ + dec_nat(hooks) + " hook(s), "@ + dec_nat(routes)
        + " route(s)"@;
    if load_errors == 0 {
        base
    } else {
        base + ", "@ + dec_nat(load_errors) + " load error(s)"@
    }
}

/// The plugin check: degraded when some plugin failed to load; never required.
pub fn plugin_check(plugins: usize, hooks: usize, routes: usize, load_errors: usize) -> (c:
    HealthCheck)
    ensures
        check_is(
            c,
            "plugins"@,
            if load_errors == 0 {
                HealthStatus::Healthy
            } else {
                HealthStatus::Degraded
            },
            false,
            plugin_message_of(plugins as nat, hooks as nat, routes as nat, load_errors as nat),
        ),
{
    let mut m: Vec<char> = Vec::new();
    push_u64(&mut m, plugins as u64);
    push_str(&mut m, " plugin(s), ");
    push_u64(&mut m, hooks as u64);
    push_str(&mut m, " hook(s), ");
    push_u64(&mut m, routes as u64);
    push_str(&mut m, " route(s)");
    let status = if load_errors == 0 {
        HealthStatus::Healthy
    } else {
        push_str(&mut m, ", ");
        push_u64(&mut m, load_errors as u64);
        push_str(&mut m, " load error(s)");
        HealthStatus::Degraded
    };
    assert(m@ =~= plugin_message_of(plugins as nat, hooks as nat, routes as nat, load_errors as nat));
    check("plugins", status, false, string_of(&m))
}

/// The cron schedules that the scheduler accepts (`cron::Schedule`).
pub uninterp spec fn cron_accepts(schedule: Seq<char>) -> bool;

/// Whether `cron` parses `schedule` as a schedule (`Schedule::from_str`).
/// The parse is a function of the text alone; which texts it accepts is left
/// to `cron`'s grammar and not stated here.
#[verifier::external_body]
fn cron_schedule_parses(schedule: &str) -> (ok: bool)
    ensures
        ok == cron_accepts(schedule@),
{
    <cron::Schedule as std::str::FromStr>::from_str(schedule).is_ok()
}

/// An enabled task whose schedule the scheduler cannot run: a cron task
/// without a schedule or with one that does not parse.
pub open spec fn task_has_invalid_cron(t: TaskRecord) -> bool {
    t.kind@ == "cron"@ && match t.schedule {
        None => true,
        Some(s) => !cron_accepts(s@),
    }
}

pub open spec fn count_invalid_cron(tasks: Seq<TaskRecord>) -> nat
    decreases tasks.len(),
{
    if tasks.len() == 0 {
        0
    } else {
        count_invalid_cron(tasks.drop_last()) + if task_has_invalid_cron(tasks.last()) {
            1nat
        } else {
            0nat
        }
    }
}

/// What the scheduler check has to go on.
pub enum SchedulerInput {
    CacheUnavailable,
    LoadFailed(String),
    EnabledTasks(Vec<TaskRecord>),
}

pub fn count_invalid_cron_tasks(tasks: &Vec<TaskRecord>) -> (n: usize)
    ensures
        n == count_invalid_cron(tasks@),
{
    let mut n: usize = 0;
    let mut i: usize = 0;
    while i < tasks.len()
        invariant
            i <= tasks.len(),
            n == count_invalid_cron(tasks@.take(i as int)),
            n <= i,
        decreases tasks.len() - i,
    {
        assert(tasks@.take(i + 1).drop_last() =~= tasks@.take(i as int));
        let t = &tasks[i];
        let is_cron = eq_str(chars_of(t.kind.as_str()).as_slice(), "cron");
        let invalid = is_cron && match &t.schedule {
            None => true,
            Some(s) => !cron_schedule_parses(s.as_str()),
        };
        if invalid {
            n = n + 1;
        }
        i = i + 1;
    }
    assert(tasks@.take(tasks.len() as int) =~= tasks@);
    n
}

/// The scheduler check: never required; degraded when an enabled cron task
/// cannot be scheduled.
pub fn scheduler_check(input: SchedulerInput) -> (c: HealthCheck)
    ensures
        match input {
            SchedulerInput::CacheUnavailable => check_is(c, "scheduler"@, HealthStatus::Skipped, false, "scheduler readiness skipped because cache is unavailable"@),
            SchedulerInput::LoadFailed(e) => check_is(c, "scheduler"@, HealthStatus::Unhealthy, false, "failed to load enabled tasks: "@ + e@),
            SchedulerInput::EnabledTasks(tasks) => if count_invalid_cron(tasks@) > 0 {
                check_is(c, "scheduler"@, HealthStatus::Degraded, false,
                    dec_nat(tasks@.len()) + " enabled task(s), "@ + dec_nat(count_invalid_cron(tasks@)) + " invalid cron schedule(s)"@)
            } else {
                check_is(c, "scheduler"@, HealthStatus::Healthy, false, dec_nat(tasks@.len()) + " enabled task(s) loaded"@)
            },
        },
{
    match input {
        SchedulerInput::CacheUnavailable => check(
            "scheduler",
            HealthStatus::Skipped,
            false,
            owned("scheduler readiness skipped because cache is unavailable"),
        ),
        SchedulerInput::LoadFailed(e) => {
            let mut m = chars_of("failed to load enabled tasks: ");
            push_str(&mut m, e.as_str());
            check("scheduler", HealthStatus::Unhealthy, false, string_of(&m))
        },
        SchedulerInput::EnabledTasks(tasks) => {
            let invalid = count_invalid_cron_tasks(&tasks);
            let mut m: Vec<char> = Vec::new();
            push_u64(&mut m, tasks.len() as u64);
            if invalid > 0 {
                push_str(&mut m, " enabled task(s), ");
                push_u64(&mut m, invalid as u64);
                push_str(&mut m, " invalid cron schedule(s)");
                assert(m@ =~= dec_nat(tasks@.len()) + " enabled task(s), "@ + dec_nat(
                    count_invalid_cron(tasks@),
                ) + " invalid cron schedule(s)"@);
                check("scheduler", HealthStatus::Degraded, false, string_of(&m))
            } else {
                push_str(&mut m, " enabled task(s) loaded");
                assert(m@ =~= dec_nat(tasks@.len()) + " enabled task(s) loaded"@);
                check("scheduler", HealthStatus::Healthy, false, string_of(&m))
            }
        },
    }
}

/// How sites stand with their containers.
#[derive(Clone, Copy, Debug, Default, PartialEq, Eq, Structural)]
pub struct SiteReadinessSummary {
    pub total: usize,
    pub without_container: usize,
    pub running: usize,
    pub not_running: usize,
    pub inspect_failed: usize,
}

/// What was found of one site's container.
#[derive(Clone, Copy, Debug, PartialEq, Eq, Structural)]
pub enum SiteContainerState {
    NoContainer,
    Running,
    NotRunning,
    InspectFailed,
}

pub open spec fn count_state(states: Seq<SiteContainerState>, s: SiteContainerState) -> nat
    decreases states.len(),
{
    if states.len() == 0 {
        0
    } else {
        count_state(states.drop_last(), s) + if states.last() == s {
            1nat
        } else {
            0nat
        }
    }
}

pub open spec fn summary_status_of(s: SiteReadinessSummary) -> HealthStatus {
    if s.total == 0 || (s.not_running == 0 && s.inspect_failed == 0) {
        HealthStatus::Healthy
    } else {
        HealthStatus::Degraded
    }
}

/// Site readiness is degraded as soon as there are sites and one of their
/// containers is not running or could not be inspected; with sites, it is
/// healthy only when every container was inspected and none is stopped
/// (sites without a container do not count against it); with no sites it
/// is healthy. It is never unhealthy or skipped.
pub proof fn lemma_site_readiness_status(s: SiteReadinessSummary)
    ensures
        s.total > 0 && s.not_running > 0 ==> summary_status_of(s) == HealthStatus::Degraded,
        s.total > 0 && s.inspect_failed > 0 ==> summary_status_of(s) == HealthStatus::Degraded,
        s.not_running == 0 && s.inspect_failed == 0 ==> summary_status_of(s) == HealthStatus::Healthy,
        s.total == 0 ==> summary_status_of(s) == HealthStatus::Healthy,
        summary_status_of(s) == HealthStatus::Healthy || summary_status_of(s) == HealthStatus::Degraded,
{
}

/// Of the sites found, one whose container is stopped or could not be
/// inspected is enough to degrade site readiness.
pub proof fn lemma_one_unready_site_degrades(states: Seq<SiteContainerState>, i: int, s: SiteReadinessSummary)
    requires
        0 <= i < states.len(),
        states[i] == SiteContainerState::NotRunning || states[i] == SiteContainerState::InspectFailed,
        s.total == states.len(),
        s.not_running == count_state(states, SiteContainerState::NotRunning),
        s.inspect_failed == count_state(states, SiteContainerState::InspectFailed),
    ensures
        summary_status_of(s) == HealthStatus::Degraded,
{
    lemma_count_state_positive(states, i);
}

proof fn lemma_count_state_positive(states: Seq<SiteContainerState>, i: int)
    requires
        0 <= i < states.len(),
    ensures
        count_state(states, states[i]) > 0,
    decreases states.len(),
{
    if i < states.len() - 1 {
        lemma_count_state_positive(states.drop_last(), i);
        assert(states.drop_last()[i] == states[i]);
    }
}

pub open spec fn summary_message_of(s: SiteReadinessSummary) -> Seq<char> {
    dec_nat(s.total as nat) + " site(s): "@ + dec_nat(s.running as nat) + " running, "@ + dec_nat(
        s.not_running as nat,
    ) + " not running, "@ + dec_nat(s.inspect_failed as nat) + " inspect failed, "@ + dec_nat(
        s.without_container as nat,
    ) + " without container"@
}

impl SiteReadinessSummary {
    /// Degraded when some site's container is not running or could not be
    /// inspected; sites without a container do not count against it.
    pub fn status(self) -> (s: HealthStatus)
        ensures
            s == summary_status_of(self),
    {
        if self.total == 0 || (self.not_running == 0 && self.inspect_failed == 0) {
            HealthStatus::Healthy
        } else {
            HealthStatus::Degraded
        }
    }

    pub fn message(self) -> (m: String)
        ensures
            m@ == summary_message_of(self),
    {
        let mut v: Vec<char> = Vec::new();
        push_u64(&mut v, self.total as u64);
        push_str(&mut v, " site(s): ");
        push_u64(&mut v, self.running as u64);
        push_str(&mut v, " running, ");
        push_u64(&mut v, self.not_running as u64);
        push_str(&mut v, " not running, ");
        push_u64(&mut v, self.inspect_failed as u64);
        push_str(&mut v, " inspect failed, ");
        push_u64(&mut v, self.without_container as u64);
        push_str(&mut v, " without container");
        assert(v@ =~= summary_message_of(self));
        string_of(&v)
    }
}

/// Tallies what was found of each site's container.
pub fn summarize_sites(states: &[SiteContainerState]) -> (s: SiteReadinessSummary)
    ensures
        s.total == states@.len(),
        s.without_container == count_state(states@, SiteContainerState::NoContainer),
        s.running == count_state(states@, SiteContainerState::Running),
        s.not_running == count_state(states@, SiteContainerState::NotRunning),
        s.inspect_failed == count_state(states@, SiteContainerState::InspectFailed),
        s.without_container + s.running + s.not_running + s.inspect_failed == s.total,
{
    let mut s = SiteReadinessSummary {
        total: states.len(),
        without_container: 0,
        running: 0,
        not_running: 0,
        inspect_failed: 0,
    };
    let mut i: usize = 0;
    while i < states.len()
        invariant
            i <= states.len(),
            s.total == states@.len(),
            s.without_container == count_state(states@.take(i as int), SiteContainerState::NoContainer),
            s.running == count_state(states@.take(i as int), SiteContainerState::Running),
            s.not_running == count_state(states@.take(i as int), SiteContainerState::NotRunning),
            s.inspect_failed == count_state(states@.take(i as int), SiteContainerState::InspectFailed),
            s.without_container + s.running + s.not_running + s.inspect_failed == i,
        decreases states.len() - i,
    {
        assert(states@.take(i + 1).drop_last() =~= states@.take(i as int));
        match states[i] {
            SiteContainerState::NoContainer => s.without_container = s.without_container + 1,
            SiteContainerState::Running => s.running = s.running + 1,
            SiteContainerState::NotRunning => s.not_running = s.not_running + 1,
            SiteContainerState::InspectFailed => s.inspect_failed = s.inspect_failed + 1,
        }
        i = i + 1;
    }
    assert(states@.take(states.len() as int) =~= states@);
    s
}

/// What the site readiness check has to go on.
pub enum SiteReadinessInput {
    CacheUnavailable,
    ListFailed,
    DockerUnavailable(usize),
    Inspected(Vec<SiteContainerState>),
}

/// The site readiness check: never required.
pub fn site_readiness_check(input: SiteReadinessInput) -> (c: HealthCheck)
    ensures
        match input {
            SiteReadinessInput::CacheUnavailable => check_is(c, "sites"@, HealthStatus::Skipped, false, "site readiness skipped because cache is unavailable"@),
            SiteReadinessInput::ListFailed => check_is(c, "sites"@, HealthStatus::Unhealthy, false, "failed to list sites"@),
            SiteReadinessInput::DockerUnavailable(n) => check_is(c, "sites"@, HealthStatus::Skipped, false,
                dec_nat(n as nat) + " site(s) tracked; container readiness skipped because Docker is unavailable"@),
            SiteReadinessInput::Inspected(states) => exists|s: SiteReadinessSummary|
                s.total == states@.len()
                && s.without_container == count_state(states@, SiteContainerState::NoContainer)
                && s.running == count_state(states@, SiteContainerState::Running)
                && s.not_running == count_state(states@, SiteContainerState::NotRunning)
                && s.inspect_failed == count_state(states@, SiteContainerState::InspectFailed)
                && check_is(c, "sites"@, summary_status_of(s), false, summary_message_of(s)),
        },
{
    match input {
        SiteReadinessInput::CacheUnavailable => check(
            "sites",
            HealthStatus::Skipped,
            false,
            owned("site readiness skipped because cache is unavailable"),
        ),
        SiteReadinessInput::ListFailed => check(
            "sites",
            HealthStatus::Unhealthy,
            false,
            owned("failed to list sites"),
        ),
        SiteReadinessInput::DockerUnavailable(n) => {
            let mut m: Vec<char> = Vec::new();
            push_u64(&mut m, n as u64);
            push_str(
                &mut m,
                " site(s) tracked; container readiness skipped because Docker is unavailable",
            );
            assert(m@ =~= dec_nat(n as nat)
                + " site(s) tracked; container readiness skipped because Docker is unavailable"@);
            check("sites", HealthStatus::Skipped, false, string_of(&m))
        },
        SiteReadinessInput::Inspected(states) => {
            let s = summarize_sites(states.as_slice());
            let c = check("sites", s.status(), false, s.message());
            assert(check_is(c, "sites"@, summary_status_of(s), false, summary_message_of(s)));
            c
        },
    }
}

/// The health response: the checks and the status they add up to.
pub fn build_response(version: String, uptime_seconds: u64, checks: Vec<HealthCheck>) -> (r:
    HealthResponse)
    ensures
        r.status == overall_of(check_views(checks@)),
        r.service@ == "featherfly"@,
        r.version@ == version@,
        r.uptime_seconds == uptime_seconds,
        r.checks@ == checks@,
{
    let status = overall_status(checks.as_slice());
    HealthResponse { status, service: "featherfly", version, uptime_seconds, checks }
}

/// The HTTP status of a health answer: 503 when unhealthy, 200 otherwise.
pub fn response_status_code(status: HealthStatus) -> (code: u16)
    ensures
        code == if status == HealthStatus::Unhealthy {
            503u16
        } else {
            200u16
        },
{
    if status == HealthStatus::Unhealthy {
        503
    } else {
        200
    }
}

pub open spec fn is_cache_check(c: HealthCheck, ping: Option<Result<(), String>>) -> bool {
    match ping {
        None => check_is(c, "sqlite_cache"@, HealthStatus::Unhealthy, true, "sqlite cache is unavailable"@),
        Some(Ok(())) => check_is(c, "sqlite_cache"@, HealthStatus::Healthy, true, "sqlite cache is reachable"@),
        Some(Err(e)) => check_is(c, "sqlite_cache"@, HealthStatus::Unhealthy, true, e@),
    }
}

pub open spec fn is_docker_check(c: HealthCheck, enabled: bool, ping: Option<Result<String, String>>) -> bool {
    match ping {
        Some(Ok(socket)) => check_is(c, "docker"@, HealthStatus::Healthy, enabled, "docker is reachable at "@ + socket@),
        Some(Err(e)) => check_is(c, "docker"@, HealthStatus::Unhealthy, enabled, e@),
        None => if enabled {
            check_is(c, "docker"@, HealthStatus::Unhealthy, true, "docker is enabled but unavailable"@)
        } else {
            check_is(c, "docker"@, HealthStatus::Skipped, false, "docker integration is disabled"@)
        },
    }
}

pub open spec fn is_traefik_check(c: HealthCheck, required: bool, running: bool) -> bool {
    if !required {
        check_is(c, "traefik"@, HealthStatus::Skipped, false, "Traefik auto-provision is disabled or not selected"@)
    } else if running {
        check_is(c, "traefik"@, HealthStatus::Healthy, true, "Traefik reverse proxy is running"@)
    } else {
        check_is(c, "traefik"@, HealthStatus::Unhealthy, true, "Traefik reverse proxy is not running"@)
    }
}

pub open spec fn is_plugin_check(c: HealthCheck, plugins: usize, hooks: usize, routes: usize, load_errors: usize) -> bool {
    check_is(
        c,
        "plugins"@,
        if load_errors == 0 {
            HealthStatus::Healthy
        } else {
            HealthStatus::Degraded
        },
        false,
        plugin_message_of(plugins as nat, hooks as nat, routes as nat, load_errors as nat),
    )
}

pub open spec fn is_scheduler_check(c: HealthCheck, input: SchedulerInput) -> bool {
    match input {
        SchedulerInput::CacheUnavailable => check_is(c, "scheduler"@, HealthStatus::Skipped, false, "scheduler readiness skipped because cache is unavailable"@),
        SchedulerInput::LoadFailed(e) => check_is(c, "scheduler"@, HealthStatus::Unhealthy, false, "failed to load enabled tasks: "@ + e@),
        SchedulerInput::EnabledTasks(tasks) => if count_invalid_cron(tasks@) > 0 {
            check_is(c, "scheduler"@, HealthStatus::Degraded, false,
                dec_nat(tasks@.len()) + " enabled task(s), "@ + dec_nat(count_invalid_cron(tasks@)) + " invalid cron schedule(s)"@)
        } else {
            check_is(c, "scheduler"@, HealthStatus::Healthy, false, dec_nat(tasks@.len()) + " enabled task(s) loaded"@)
        },
    }
}

pub open spec fn is_site_check(c: HealthCheck, input: SiteReadinessInput) -> bool {
    match input {
        SiteReadinessInput::CacheUnavailable => check_is(c, "sites"@, HealthStatus::Skipped, false, "site readiness skipped because cache is unavailable"@),
        SiteReadinessInput::ListFailed => check_is(c, "sites"@, HealthStatus::Unhealthy, false, "failed to list sites"@),
        SiteReadinessInput::DockerUnavailable(n) => check_is(c, "sites"@, HealthStatus::Skipped, false,
            dec_nat(n as nat) + " site(s) tracked; container readiness skipped because Docker is unavailable"@),
        SiteReadinessInput::Inspected(states) => exists|s: SiteReadinessSummary|
            s.total == states@.len()
            && s.without_container == count_state(states@, SiteContainerState::NoContainer)
            && s.running == count_state(states@, SiteContainerState::Running)
            && s.not_running == count_state(states@, SiteContainerState::NotRunning)
            && s.inspect_failed == count_state(states@, SiteContainerState::InspectFailed)
            && check_is(c, "sites"@, summary_status_of(s), false, summary_message_of(s)),
    }
}

/// What the health checks were found to be: the outcome of each probe the
/// daemon made.
pub struct HealthInputs {
    /// The cache's ping, or `None` when there is no cache.
    pub cache_ping: Option<Result<(), String>>,
    pub docker_enabled: bool,
    /// The socket that answered Docker's ping or the ping's error, or `None`
    /// when there is no Docker client.
    pub docker_ping: Option<Result<String, String>>,
    /// Traefik is checked (see `traefik_required`).
    pub traefik_required: bool,
    /// Traefik runs; read only when it is checked.
    pub traefik_running: bool,
    pub plugins: usize,
    pub hooks: usize,
    pub routes: usize,
    pub load_errors: usize,
    pub scheduler: SchedulerInput,
    pub sites: SiteReadinessInput,
}

/// The health checks, in the order the health answer lists them:
/// configuration, cache, Docker, Traefik, plugins, scheduler, sites.
pub fn collect_checks(inputs: HealthInputs) -> (v: Vec<HealthCheck>)
    ensures
        v@.len() == 7,
        check_is(v@[0], "config"@, HealthStatus::Healthy, true, "configuration loaded"@),
        is_cache_check(v@[1], inputs.cache_ping),
        is_docker_check(v@[2], inputs.docker_enabled, inputs.docker_ping),
        is_traefik_check(v@[3], inputs.traefik_required, inputs.traefik_running),
        is_plugin_check(v@[4], inputs.plugins, inputs.hooks, inputs.routes, inputs.load_errors),
        is_scheduler_check(v@[5], inputs.scheduler),
        is_site_check(v@[6], inputs.sites),
{
    let HealthInputs {
        cache_ping,
        docker_enabled,
        docker_ping,
        traefik_required,
        traefik_running,
        plugins,
        hooks,
        routes,
        load_errors,
        scheduler,
        sites,
    } = inputs;
    let mut v: Vec<HealthCheck> = Vec::new();
    v.push(config_check());
    v.push(cache_check(cache_ping));
    v.push(docker_check(docker_enabled, docker_ping));
    v.push(traefik_check(traefik_required, traefik_running));
    v.push(plugin_check(plugins, hooks, routes, load_errors));
    v.push(scheduler_check(scheduler));
    v.push(site_readiness_check(sites));
    v
}

} // verus!
