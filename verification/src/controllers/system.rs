//! The system endpoints that change the daemon: applying a configuration,
//! restarting, and installing an update; what each allows and answers.
use vstd::prelude::*;

use super::{error_reply, reply_is, ErrorReply};
use crate::commands::update::UpdateChannel;
use crate::text::owned;

verus! {

pub struct PutPayload {
    pub yaml: String,
    /// Restart the daemon when the new configuration needs it.
    pub restart_if_required: bool,
}

pub struct PutResponse {
    pub applied: bool,
    pub requires_restart: bool,
    pub restart_reasons: Vec<String>,
    pub restart_scheduled: bool,
}

/// How long after answering the daemon restarts for a new configuration.
pub const CONFIG_RESTART_DELAY_MS: u64 = 750;

/// Editing the configuration remotely must be allowed.
pub fn config_edit_gate(config_edit: bool) -> (r: Result<(), ErrorReply>)
    ensures
        config_edit ==> r is Ok,
        !config_edit ==> (r matches Err(e) && reply_is(e, 403, "remote config edit is disabled"@)),
{
    if config_edit {
        Ok(())
    } else {
        Err(error_reply(403, "remote config edit is disabled"))
    }
}

/// The answer once the new configuration was applied: a restart is
/// scheduled when the request allows it, the configuration needs it and
/// remote restarts are allowed.
pub fn config_applied(
    payload: &PutPayload,
    requires_restart: bool,
    restart_reasons: Vec<String>,
    restart_allowed: bool,
) -> (r: PutResponse)
    ensures
        r.applied,
        r.requires_restart == requires_restart,
        r.restart_reasons@ == restart_reasons@,
        r.restart_scheduled == (payload.restart_if_required && requires_restart && restart_allowed),
{
    PutResponse {
        applied: true,
        requires_restart,
        restart_reasons,
        restart_scheduled: payload.restart_if_required && requires_restart && restart_allowed,
    }
}

/// A restart request.
pub struct Payload {
    pub delay_ms: u64,
    pub reason: Option<String>,
}

pub struct RestartResponse {
    pub scheduled: bool,
    pub delay_ms: u64,
}

/// A restart is scheduled after the asked delay when remote restarts are
/// allowed (the answer is 202), else refused with 403.
pub fn restart_reply(remote_restart: bool, payload: &Payload) -> (r: Result<RestartResponse, ErrorReply>)
    ensures
        remote_restart ==> (r matches Ok(x) && x.scheduled && x.delay_ms == payload.delay_ms),
        !remote_restart ==> (r matches Err(e) && reply_is(e, 403, "remote restart is disabled"@)),
{
    if remote_restart {
        Ok(RestartResponse { scheduled: true, delay_ms: payload.delay_ms })
    } else {
        Err(error_reply(403, "remote restart is disabled"))
    }
}

pub struct ApplyPayload {
    pub restart: bool,
    pub delay_ms: u64,
}

impl Default for ApplyPayload {
    /// Restart right away once installed.
    fn default() -> (p: Self)
        ensures
            p.restart,
            p.delay_ms == 0,
    {
        ApplyPayload { restart: true, delay_ms: 0 }
    }
}

pub struct ApplyResponse {
    pub scheduled: bool,
    pub restart: bool,
    pub delay_ms: u64,
    pub channel: UpdateChannel,
    pub update_available: bool,
}

/// What an update request does before anything is checked online.
pub enum ApplyGate {
    Refused(ErrorReply),
    /// The configuration ignores the panel's upgrade requests: nothing is
    /// done, and that is the answer.
    Ignored(ApplyResponse),
    /// Check the channel for an update first.
    CheckFirst(UpdateChannel),
}

/// Refused (403) when remote upgrades are not allowed, refused (400) in a
/// container; answered with nothing done when panel upgrades are ignored;
/// refused (400) when updates are disabled; else checked first.
pub fn apply_gate(
    remote_upgrade: bool,
    containerized: bool,
    ignore_panel_upgrades: bool,
    channel: UpdateChannel,
) -> (g: ApplyGate)
    ensures
        !remote_upgrade ==> (g matches ApplyGate::Refused(e) && reply_is(
            e,
            403,
            "remote upgrade is disabled"@,
        )),
        remote_upgrade && containerized ==> (g matches ApplyGate::Refused(e) && reply_is(
            e,
            400,
            "upgrades are not supported in containerized environments"@,
        )),
        remote_upgrade && !containerized && ignore_panel_upgrades ==> (g matches ApplyGate::Ignored(
            a,
        ) && !a.scheduled && !a.restart && a.delay_ms == 0 && a.channel == channel
            && !a.update_available),
        remote_upgrade && !containerized && !ignore_panel_upgrades && channel
            == UpdateChannel::Disabled ==> (g matches ApplyGate::Refused(e) && reply_is(
            e,
            400,
            "updates are disabled in configuration"@,
        )),
        remote_upgrade && !containerized && !ignore_panel_upgrades && channel
            != UpdateChannel::Disabled ==> g == ApplyGate::CheckFirst(channel),
{
    if !remote_upgrade {
        ApplyGate::Refused(error_reply(403, "remote upgrade is disabled"))
    } else if containerized {
        ApplyGate::Refused(error_reply(400, "upgrades are not supported in containerized environments"))
    } else if ignore_panel_upgrades {
        ApplyGate::Ignored(
            ApplyResponse {
                scheduled: false,
                restart: false,
                delay_ms: 0,
                channel,
                update_available: false,
            },
        )
    } else if channel == UpdateChannel::Disabled {
        ApplyGate::Refused(error_reply(400, "updates are disabled in configuration"))
    } else {
        ApplyGate::CheckFirst(channel)
    }
}

/// After the check: refused (502) when it failed, with its message or a
/// generic one; refused (409) when there is nothing newer; else the install
/// is scheduled (202) with the request's restart choice.
pub fn apply_after_check(
    check_ok: bool,
    check_message: Option<String>,
    update_available: bool,
    payload: &ApplyPayload,
    channel: UpdateChannel,
) -> (r: Result<ApplyResponse, ErrorReply>)
    ensures
        !check_ok ==> (r matches Err(e) && reply_is(
            e,
            502,
            match check_message {
                Some(m) => m@,
                None => "failed to check for updates"@,
            },
        )),
        check_ok && !update_available ==> (r matches Err(e) && reply_is(
            e,
            409,
            "FeatherFly is already up to date"@,
        )),
        check_ok && update_available ==> (r matches Ok(a) && a.scheduled && a.restart
            == payload.restart && a.delay_ms == payload.delay_ms && a.channel == channel
            && a.update_available),
{
    if !check_ok {
        let message = match check_message {
            Some(m) => m,
            None => owned("failed to check for updates"),
        };
        return Err(ErrorReply { status: 502, message });
    }
    if !update_available {
        return Err(error_reply(409, "FeatherFly is already up to date"));
    }
    Ok(
        ApplyResponse {
            scheduled: true,
            restart: payload.restart,
            delay_ms: payload.delay_ms,
            channel,
            update_available: true,
        },
    )
}

} // verus!
