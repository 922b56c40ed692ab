//! The site endpoints: their queries and bodies, with their defaults, and
//! the checks they make before doing anything.
use vstd::prelude::*;

use super::{error_reply, reply_is, ErrorReply};
use crate::text::{chars_of, owned};

verus! {

pub struct DestroyQuery {
    pub force: bool,
}

pub struct WebhookDeployBody {
    pub git_ref: Option<String>,
}

pub struct ActionResponse {
    pub id: String,
    pub ok: bool,
}

pub struct SiteLogsQuery {
    pub tail: Option<String>,
    pub grep: Option<String>,
    /// Offer the logs as a file.
    pub download: bool,
}

pub struct DatabaseDestroyQuery {
    pub force: bool,
}

pub struct FilePathQuery {
    pub path: Option<String>,
}

pub struct ArchiveResponse {
    pub archive: String,
}

/// What a deploy asks for.
pub struct DeployRequest {
    pub git_ref: Option<String>,
    pub rebuild: bool,
    pub zero_downtime: bool,
}

/// A webhook deploys the given reference in place: no rebuild, no
/// blue/green.
pub fn webhook_deploy_request(body: WebhookDeployBody) -> (r: DeployRequest)
    ensures
        r.git_ref == body.git_ref,
        !r.rebuild,
        !r.zero_downtime,
{
    DeployRequest { git_ref: body.git_ref, rebuild: false, zero_downtime: false }
}

/// The file a file request is about: refused with 400 when the query names
/// none (or an empty one).
pub fn required_file_path(query: FilePathQuery) -> (r: Result<String, ErrorReply>)
    ensures
        match query.path {
            Some(p) => if p@.len() > 0 {
                r matches Ok(x) && x@ == p@
            } else {
                r matches Err(e) && reply_is(e, 400, "path query parameter required"@)
            },
            None => r matches Err(e) && reply_is(e, 400, "path query parameter required"@),
        },
{
    match query.path {
        Some(p) => if chars_of(p.as_str()).len() > 0 {
            Ok(p)
        } else {
            Err(error_reply(400, "path query parameter required"))
        },
        None => Err(error_reply(400, "path query parameter required")),
    }
}

/// The answer to a site action that went through.
pub fn site_action_done(id: String) -> (r: ActionResponse)
    ensures
        r.id@ == id@,
        r.ok,
{
    ActionResponse { id, ok: true }
}

} // verus!
