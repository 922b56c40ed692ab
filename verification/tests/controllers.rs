use featherfly::cache::BackupRecord;
use featherfly::commands::update::UpdateChannel;
use featherfly::controllers::containers::{
    action_reply, pull_target, ContainerAction, ExecPayload, LogsQuery, RemoveQuery,
};
use featherfly::controllers::files::{
    attachment_header, backup_attachment_header, download_file_name, find_backup, has_permission,
    token_gate, upload_target_path,
};
use featherfly::controllers::sites::{required_file_path, FilePathQuery};
use featherfly::controllers::system::{
    apply_after_check, apply_gate, config_applied, config_edit_gate, restart_reply, ApplyGate,
    ApplyPayload, Payload, PutPayload,
};

#[test]
fn pull_target_falls_back_to_configured_image() {
    assert_eq!(pull_target(Some("nginx:1".to_string()), "").ok().unwrap(), "nginx:1");
    assert_eq!(pull_target(None, "redis:7").ok().unwrap(), "redis:7");
    let e = pull_target(None, "").err().unwrap();
    assert_eq!(e.status, 400);
    assert_eq!(e.message, "no image specified and container has no configured image");
}

#[test]
fn container_action_replies() {
    let ok = action_reply("c1".to_string(), ContainerAction::Stop, Ok(())).ok().unwrap();
    assert_eq!(ok.id, "c1");
    assert_eq!(ok.action, "stop");
    assert!(ok.ok);
    let e = action_reply("c1".to_string(), ContainerAction::Remove, Err("gone".to_string()))
        .err()
        .unwrap();
    assert_eq!(e.status, 502);
    assert_eq!(e.message, "failed to remove container: gone");
}

#[test]
fn query_defaults() {
    let q = LogsQuery::default();
    assert!(!q.follow && q.stdout && q.stderr && q.tail.is_none());
    let p = ExecPayload::default();
    assert_eq!(p.cmd, vec!["/bin/sh"]);
    assert!(p.tty);
    assert!(!RemoveQuery::default().force);
    let a = ApplyPayload::default();
    assert!(a.restart);
    assert_eq!(a.delay_ms, 0);
}

#[test]
fn token_gate_order() {
    assert_eq!(token_gate(false, None, true).err().unwrap().message, "invalid token");
    assert_eq!(token_gate(true, Some("expired".to_string()), true).err().unwrap().message, "invalid token: expired");
    assert_eq!(token_gate(true, None, false).err().unwrap().message, "token has already been used");
    assert_eq!(token_gate(true, None, false).err().unwrap().status, 401);
    assert!(token_gate(true, None, true).is_ok());
}

#[test]
fn download_names() {
    assert_eq!(download_file_name("public/docs/report.pdf"), "report.pdf");
    assert_eq!(download_file_name("report.pdf"), "report.pdf");
    assert_eq!(download_file_name("dir/"), "");
    assert_eq!(attachment_header("a.txt"), "attachment; filename=\"a.txt\"");
    assert_eq!(backup_attachment_header("b1"), "attachment; filename=\"b1.tar.gz\"");
}

#[test]
fn backups_are_found_by_id() {
    let backups = vec![
        BackupRecord { id: "a".to_string(), site_id: "s".to_string(), path: "/a".to_string(), created_at: 1 },
        BackupRecord { id: "b".to_string(), site_id: "s".to_string(), path: "/b".to_string(), created_at: 2 },
    ];
    assert_eq!(find_backup(&backups, "b"), Some(1));
    assert_eq!(find_backup(&backups, "c"), None);
}

#[test]
fn upload_paths_and_permissions() {
    assert_eq!(upload_target_path(" /public/img/ ", "a.png"), "public/img/a.png");
    assert_eq!(upload_target_path("", "a.png"), "a.png");
    assert_eq!(upload_target_path(" // ", "a.png"), "a.png");
    let perms = vec!["file.read".to_string(), "file.write".to_string()];
    assert!(has_permission(&perms, "file.write"));
    assert!(!has_permission(&perms, "file.delete"));
}

#[test]
fn file_requests_need_a_path() {
    assert_eq!(required_file_path(FilePathQuery { path: Some("a".to_string()) }).ok().unwrap(), "a");
    assert_eq!(required_file_path(FilePathQuery { path: Some(String::new()) }).err().unwrap().status, 400);
    assert_eq!(
        required_file_path(FilePathQuery { path: None }).err().unwrap().message,
        "path query parameter required"
    );
}

#[test]
fn config_put_schedules_restart_only_when_all_agree() {
    assert_eq!(config_edit_gate(false).err().unwrap().status, 403);
    let payload = PutPayload { yaml: String::new(), restart_if_required: true };
    let r = config_applied(&payload, true, vec!["api.port".to_string()], true);
    assert!(r.applied && r.requires_restart && r.restart_scheduled);
    let r = config_applied(&payload, true, vec![], false);
    assert!(!r.restart_scheduled);
    let payload = PutPayload { yaml: String::new(), restart_if_required: false };
    assert!(!config_applied(&payload, true, vec![], true).restart_scheduled);
}

#[test]
fn restart_requires_permission() {
    let payload = Payload { delay_ms: 250, reason: None };
    let r = restart_reply(true, &payload).ok().unwrap();
    assert!(r.scheduled);
    assert_eq!(r.delay_ms, 250);
    assert_eq!(restart_reply(false, &payload).err().unwrap().message, "remote restart is disabled");
}

#[test]
fn update_apply_gates() {
    match apply_gate(false, false, false, UpdateChannel::Stable) {
        ApplyGate::Refused(e) => assert_eq!(e.status, 403),
        _ => panic!("expected refusal"),
    }
    match apply_gate(true, true, false, UpdateChannel::Stable) {
        ApplyGate::Refused(e) => assert_eq!(e.status, 400),
        _ => panic!("expected refusal"),
    }
    match apply_gate(true, false, true, UpdateChannel::Nightly) {
        ApplyGate::Ignored(a) => assert!(!a.scheduled && a.channel == UpdateChannel::Nightly),
        _ => panic!("expected no-op"),
    }
    match apply_gate(true, false, false, UpdateChannel::Disabled) {
        ApplyGate::Refused(e) => assert_eq!(e.message, "updates are disabled in configuration"),
        _ => panic!("expected refusal"),
    }
    assert!(matches!(apply_gate(true, false, false, UpdateChannel::Stable), ApplyGate::CheckFirst(UpdateChannel::Stable)));
    let payload = ApplyPayload { restart: false, delay_ms: 10 };
    assert_eq!(apply_after_check(false, None, false, &payload, UpdateChannel::Stable).err().unwrap().message, "failed to check for updates");
    assert_eq!(apply_after_check(true, None, false, &payload, UpdateChannel::Stable).err().unwrap().status, 409);
    let a = apply_after_check(true, None, true, &payload, UpdateChannel::Stable).ok().unwrap();
    assert!(a.scheduled && !a.restart && a.delay_ms == 10 && a.update_available);
}
