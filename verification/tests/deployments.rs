use std::time::Duration;

use featherfly::deployments::blue_green::{
    begin, final_labels, site_labels, step, with_document_root, BgAction, BgEvent, BgPhase,
};
use featherfly::deployments::deploy::{
    deploy_dir, deploy_repository, git_failure_message, git_step, sync_args, DeployError, GitStep,
};
use featherfly::deployments::health::{
    default_timeout_secs, poll_decision, probe_args, probe_path, probe_url, site_ip,
    timed_out_message, PollDecision, PollObservation, DEFAULT_TIMEOUT_SECS,
};

#[test]
fn default_timeout_is_two_minutes() {
    assert_eq!(Duration::from_secs(DEFAULT_TIMEOUT_SECS), Duration::from_secs(120));
    assert_eq!(Duration::from_secs(default_timeout_secs()), Duration::from_secs(120));
}

#[test]
fn probe_path_defaults_to_root() {
    assert_eq!(probe_path(None), "/");
    assert_eq!(probe_path(Some("")), "/");
    assert_eq!(probe_path(Some("/healthz")), "/healthz");
}

#[test]
fn probe_url_and_args() {
    let url = probe_url("10.0.0.2", 8080, "/");
    assert_eq!(url, "http://10.0.0.2:8080/");
    let args = probe_args("site-nw-demo", &url);
    assert_eq!(
        args,
        vec![
            "run",
            "--rm",
            "--network",
            "site-nw-demo",
            "alpine:3",
            "sh",
            "-c",
            "wget -q -O /dev/null --timeout=5 'http://10.0.0.2:8080/'",
        ]
    );
}

#[test]
fn poll_decisions() {
    assert!(matches!(poll_decision(PollObservation::ProbePassed, 80, "/"), PollDecision::Ready));
    match poll_decision(PollObservation::NotRunning, 80, "/") {
        PollDecision::Retry(e) => assert_eq!(e, "container is not running"),
        PollDecision::Ready => panic!("not ready"),
    }
    match poll_decision(PollObservation::ProbeFailed { ip: "10.0.0.2".to_string() }, 80, "/x") {
        PollDecision::Retry(e) => assert_eq!(e, "HTTP probe failed for 10.0.0.2:80/x"),
        PollDecision::Ready => panic!("not ready"),
    }
    assert_eq!(timed_out_message("x"), "site health check timed out: x");
}

#[test]
fn site_ip_requires_an_address() {
    assert!(site_ip(None).is_err());
    assert!(site_ip(Some(String::new())).is_err());
    assert_eq!(site_ip(Some("10.0.0.3".to_string())).ok().unwrap(), "10.0.0.3");
}

#[test]
fn deploy_repository_prefers_the_request() {
    let site_repo = Some("https://git.example/site.git".to_string());
    assert_eq!(deploy_repository(Some("https://other.git"), &site_repo).unwrap(), "https://other.git");
    assert_eq!(deploy_repository(None, &site_repo).unwrap(), "https://git.example/site.git");
    assert_eq!(deploy_repository(None, &None), Err(DeployError::NoRepository));
    assert_eq!(DeployError::NoRepository.message(), "no git repository configured for site");
}

#[test]
fn deploy_dir_layout() {
    assert_eq!(deploy_dir("/var/lib/featherfly", "demo"), "/var/lib/featherfly/sites/demo/src");
}

#[test]
fn git_steps() {
    match git_step(true, true, "repo", "/d") {
        GitStep::Pull { args } => assert_eq!(args, vec!["pull", "--ff-only"]),
        GitStep::Clone { .. } => panic!("expected pull"),
    }
    match git_step(false, true, "repo", "/d") {
        GitStep::Clone { clear_dir, args } => {
            assert!(clear_dir);
            assert_eq!(args, vec!["clone", "repo", "/d"]);
        }
        GitStep::Pull { .. } => panic!("expected clone"),
    }
    let args = vec!["pull".to_string(), "--ff-only".to_string()];
    assert_eq!(git_failure_message(&args), "git command failed: git pull --ff-only");
    assert_eq!(sync_args("vol", "/src")[3], "vol:/target");
}

fn drive(mut events: Vec<BgEvent>, old: Option<String>, attach: bool) -> (Vec<String>, BgPhase) {
    let (mut run, first) = begin("demo", old, "abc", attach, true, true);
    let mut log = vec![describe(&first)];
    events.reverse();
    while let Some(e) = events.pop() {
        let (next, action) = step(&run, e);
        log.push(describe(&action));
        run = next;
    }
    (log, run.phase)
}

fn describe(a: &BgAction) -> String {
    match a {
        BgAction::EmitStarted => "emit-started".to_string(),
        BgAction::EmitFinished => "emit-finished".to_string(),
        BgAction::Deploy => "deploy".to_string(),
        BgAction::CreateGreen(n) => format!("create-green {n}"),
        BgAction::Connect(id) => format!("connect {id}"),
        BgAction::Start(id) => format!("start {id}"),
        BgAction::WaitReady(id) => format!("wait {id}"),
        BgAction::Stop(id) => format!("stop {id}"),
        BgAction::Remove(id) => format!("remove {id}"),
        BgAction::CreateFinal(n) => format!("create-final {n}"),
        BgAction::Save(id) => format!("save {id}"),
        BgAction::Finish => "finish".to_string(),
        BgAction::Fail(m) => format!("fail {m}"),
    }
}

#[test]
fn blue_green_replaces_the_old_container_after_the_check() {
    let (log, phase) = drive(
        vec![
            BgEvent::Done,
            BgEvent::Done,
            BgEvent::Created("g1".to_string()),
            BgEvent::Done,
            BgEvent::Done,
            BgEvent::Done,
            BgEvent::Done,
            BgEvent::Done,
            BgEvent::Done,
            BgEvent::Created("f1".to_string()),
            BgEvent::Done,
            BgEvent::Done,
            BgEvent::Done,
        ],
        Some("old1".to_string()),
        false,
    );
    assert_eq!(
        log,
        vec![
            "emit-started",
            "deploy",
            "create-green site-demo-abc",
            "start g1",
            "wait g1",
            "stop old1",
            "remove old1",
            "stop g1",
            "remove g1",
            "create-final site-demo",
            "start f1",
            "save f1",
            "emit-finished",
            "finish",
        ]
    );
    assert_eq!(phase, BgPhase::Done);
}

#[test]
fn blue_green_rolls_back_when_the_check_fails() {
    let (log, phase) = drive(
        vec![
            BgEvent::Done,
            BgEvent::Done,
            BgEvent::Created("g1".to_string()),
            BgEvent::Done,
            BgEvent::Done,
            BgEvent::Failed("timed out".to_string()),
            BgEvent::Done,
            BgEvent::Done,
        ],
        Some("old1".to_string()),
        true,
    );
    assert_eq!(
        log,
        vec![
            "emit-started",
            "deploy",
            "create-green site-demo-abc",
            "connect g1",
            "start g1",
            "wait g1",
            "stop g1",
            "remove g1",
            "fail blue/green deploy rolled back \u{2014} new container failed health check: timed out",
        ]
    );
    assert_eq!(phase, BgPhase::Failed);
}

#[test]
fn blue_green_needs_network_and_volume() {
    let (run, first) = begin("demo", None, "abc", false, false, true);
    assert_eq!(describe(&first), "emit-started");
    let (run, action) = step(&run, BgEvent::Done);
    assert_eq!(describe(&action), "deploy");
    let (next, action) = step(&run, BgEvent::Done);
    assert_eq!(next.phase, BgPhase::Failed);
    assert_eq!(describe(&action), "fail site has no network");
}

#[test]
fn failed_run_keeps_its_reason() {
    let (run, _) = begin("demo", None, "abc", false, true, true);
    let (run, _) = step(&run, BgEvent::Done);
    let (run, action) = step(&run, BgEvent::Failed("git clone failed".to_string()));
    assert_eq!(describe(&action), "fail git clone failed");
    assert_eq!(run.phase, BgPhase::Failed);
    assert_eq!(run.error, "git clone failed");
    let (again, action) = step(&run, BgEvent::Done);
    assert_eq!(describe(&action), "fail git clone failed");
    assert_eq!(again.error, "git clone failed");
}

#[test]
fn document_root_and_labels() {
    let env = with_document_root(vec![], &Some("public".to_string()));
    assert_eq!(env, vec![("FEATHERFLY_DOCUMENT_ROOT".to_string(), "public".to_string())]);
    let env = with_document_root(vec![], &Some(String::new()));
    assert!(env.is_empty());
    let labels = site_labels("demo", "demo.example");
    assert_eq!(labels[0], ("featherfly.site.id".to_string(), "demo".to_string()));
    assert_eq!(labels[1], ("featherfly.site.domain".to_string(), "demo.example".to_string()));
    let labels = final_labels("demo", "demo.example", Some(vec![("a".to_string(), "b".to_string())]));
    assert_eq!(labels.len(), 3);
    assert_eq!(labels[2], ("a".to_string(), "b".to_string()));
}
