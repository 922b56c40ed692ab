//! The container endpoints: their request bodies and queries with their
//! defaults, and their answers.
use vstd::prelude::*;

use super::{error_reply, reply_is, ErrorReply};
use crate::docker::containers::CreateContainerRequest;
use crate::docker::exec::ExecCreateRequest;
use crate::docker::logs::LogsRequest;
use crate::text::{chars_of, concat2, owned};

verus! {

pub struct CreatePayload {
    pub spec: CreateContainerRequest,
    /// Start the container once created; on unless the body says otherwise.
    pub start: bool,
}

/// A created container is started unless the request says otherwise.
pub fn default_start() -> (b: bool)
    ensures
        b,
{
    true
}

pub struct PullPayload {
    pub image: Option<String>,
}

pub struct LogsQuery {
    pub follow: bool,
    pub stdout: bool,
    pub stderr: bool,
    pub tail: Option<String>,
}

impl Default for LogsQuery {
    /// Not followed, both streams, Docker's own tail.
    fn default() -> (q: Self)
        ensures
            !q.follow,
            q.stdout,
            q.stderr,
            q.tail is None,
    {
        LogsQuery { follow: false, stdout: true, stderr: true, tail: None }
    }
}

pub struct ExecPayload {
    pub cmd: Vec<String>,
    pub tty: bool,
}

impl Default for ExecPayload {
    /// A shell, on a terminal.
    fn default() -> (p: Self)
        ensures
            p.cmd@.len() == 1,
            p.cmd@[0]@ == "/bin/sh"@,
            p.tty,
    {
        let mut cmd: Vec<String> = Vec::new();
        cmd.push(owned("/bin/sh"));
        ExecPayload { cmd, tty: true }
    }
}

pub struct ExecWsQuery {
    pub exec_id: String,
    pub tty: bool,
}

pub struct RemoveQuery {
    pub force: bool,
}

impl Default for RemoveQuery {
    fn default() -> (q: Self)
        ensures
            !q.force,
    {
        RemoveQuery { force: false }
    }
}

pub struct ActionResponse {
    pub id: String,
    pub action: &'static str,
    pub ok: bool,
}

/// The logs request of a logs query: the query's choices, field by field.
pub fn logs_request(query: LogsQuery) -> (r: LogsRequest)
    ensures
        r.follow == query.follow,
        r.stdout == query.stdout,
        r.stderr == query.stderr,
        r.tail == query.tail,
{
    LogsRequest { follow: query.follow, stdout: query.stdout, stderr: query.stderr, tail: query.tail }
}

/// The exec session an exec body asks for.
pub fn exec_request(body: ExecPayload) -> (r: ExecCreateRequest)
    ensures
        r.cmd@ == body.cmd@,
        r.tty == body.tty,
{
    ExecCreateRequest { cmd: body.cmd, tty: body.tty }
}

/// The image to pull: the one in the body, else the container's configured
/// image (`inspected`, empty when it has none); refused with 400 when that
/// is empty.
pub fn pull_target(body_image: Option<String>, inspected: &str) -> (r: Result<String, ErrorReply>)
    ensures
        ({
            let image = match body_image {
                Some(i) => i@,
                None => inspected@,
            };
            if image.len() > 0 {
                r matches Ok(x) && x@ == image
            } else {
                r matches Err(e) && reply_is(
                    e,
                    400,
                    "no image specified and container has no configured image"@,
                )
            }
        }),
{
    let image = match body_image {
        Some(i) => i,
        None => owned(inspected),
    };
    if chars_of(image.as_str()).len() > 0 {
        Ok(image)
    } else {
        Err(error_reply(400, "no image specified and container has no configured image"))
    }
}

/// The actions on one container.
#[derive(Clone, Copy, Debug, PartialEq, Eq, Structural)]
pub enum ContainerAction {
    Start,
    Stop,
    Remove,
    Pull,
}

pub open spec fn action_name(a: ContainerAction) -> Seq<char> {
    match a {
        ContainerAction::Start => "start"@,
        ContainerAction::Stop => "stop"@,
        ContainerAction::Remove => "remove"@,
        ContainerAction::Pull => "pull"@,
    }
}

pub open spec fn failure_prefix(a: ContainerAction) -> Seq<char> {
    match a {
        ContainerAction::Start => "failed to start container: "@,
        ContainerAction::Stop => "failed to stop container: "@,
        ContainerAction::Remove => "failed to remove container: "@,
        ContainerAction::Pull => "failed to pull image: "@,
    }
}

/// The answer to an action on container `id`: done, or 502 with Docker's
/// error.
pub fn action_reply(id: String, action: ContainerAction, outcome: Result<(), String>) -> (r: Result<
    ActionResponse,
    ErrorReply,
>)
    ensures
        match outcome {
            Ok(_) => r matches Ok(a) && a.id@ == id@ && a.action@ == action_name(action) && a.ok,
            Err(e) => r matches Err(x) && reply_is(x, 502, failure_prefix(action) + e@),
        },
{
    match outcome {
        Ok(()) => {
            let name: &'static str = match action {
                ContainerAction::Start => "start",
                ContainerAction::Stop => "stop",
                ContainerAction::Remove => "remove",
                ContainerAction::Pull => "pull",
            };
            Ok(ActionResponse { id, action: name, ok: true })
        },
        Err(e) => {
            let prefix: &'static str = match action {
                ContainerAction::Start => "failed to start container: ",
                ContainerAction::Stop => "failed to stop container: ",
                ContainerAction::Remove => "failed to remove container: ",
                ContainerAction::Pull => "failed to pull image: ",
            };
            Err(ErrorReply { status: 502, message: concat2(prefix, e.as_str()) })
        },
    }
}

} // verus!
