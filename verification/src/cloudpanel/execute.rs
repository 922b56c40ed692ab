//! Running a CloudPanel command: what plugin hooks may do to its arguments,
//! and how the command's outcome becomes the answer and the lifecycle phase.
use vstd::prelude::*;

use crate::cloudpanel::api::CommandPhase;
use crate::cloudpanel::command::{
    arg_views, cancel_message, cancel_message_of, normalize_hook_args, normalized_of, raw_all,
    raw_args, CliArg, HookArgsError,
};
use crate::cloudpanel::parse::{cloudpanel_error_message, error_message_of};
use crate::controllers::{error_reply, reply_is, ErrorReply};
use crate::text::{owned, string_views};

verus! {

/// What the plugin hooks made of a command before it runs.
pub enum HookOutcome {
    /// A hook cancelled it, with this reason.
    Cancelled(String),
    /// A hook rewrote the arguments; `None` when what it returned did not
    /// read as an argument list.
    Rewritten(Option<Vec<CliArg>>),
    Unchanged,
}

pub open spec fn hook_error_message(e: HookArgsError) -> Seq<char> {
    match e {
        HookArgsError::InvalidJson => "CloudPanel plugin returned invalid args JSON"@,
        HookArgsError::UnsupportedArgument => "CloudPanel plugin returned unsupported argument"@,
        HookArgsError::DuplicateArgument => "CloudPanel plugin returned duplicate argument"@,
    }
}

/// The argument list a command runs with after its hooks: refused with 400
/// when a hook cancelled it or returned a list that cannot be taken back;
/// then each argument as the command line gets it, refused with 400 when
/// one cannot be passed.
pub fn arguments_after_hooks(args: Vec<CliArg>, hooks: HookOutcome) -> (r: Result<
    (Vec<CliArg>, Vec<String>),
    ErrorReply,
>)
    ensures
        match hooks {
            HookOutcome::Cancelled(reason) => r matches Err(e) && reply_is(
                e,
                400,
                cancel_message_of(reason@),
            ),
            HookOutcome::Rewritten(None) => r matches Err(e) && reply_is(
                e,
                400,
                "CloudPanel plugin returned invalid args JSON"@,
            ),
            HookOutcome::Rewritten(Some(ret)) => match normalized_of(
                arg_views(args@),
                arg_views(ret@),
            ) {
                Err(he) => r matches Err(e) && reply_is(e, 400, hook_error_message(he)),
                Ok(v) => match raw_all(v) {
                    Ok(raw) => r matches Ok(p) && arg_views(p.0@) == v && string_views(p.1@) == raw,
                    Err(m) => r matches Err(e) && reply_is(e, 400, m),
                },
            },
            HookOutcome::Unchanged => match raw_all(arg_views(args@)) {
                Ok(raw) => r matches Ok(p) && arg_views(p.0@) == arg_views(args@) && string_views(
                    p.1@,
                ) == raw,
                Err(m) => r matches Err(e) && reply_is(e, 400, m),
            },
        },
{
    let final_args = match hooks {
        HookOutcome::Cancelled(reason) => {
            return Err(ErrorReply { status: 400, message: cancel_message(reason.as_str()) });
        },
        HookOutcome::Rewritten(None) => {
            return Err(error_reply(400, "CloudPanel plugin returned invalid args JSON"));
        },
        HookOutcome::Rewritten(Some(ret)) => match normalize_hook_args(args.as_slice(), ret) {
            Ok(v) => v,
            Err(e) => {
                return Err(ErrorReply { status: 400, message: e.message() });
            },
        },
        HookOutcome::Unchanged => args,
    };
    match raw_args(final_args.as_slice()) {
        Ok(raw) => Ok((final_args, raw)),
        Err(m) => Err(ErrorReply { status: 400, message: m }),
    }
}

/// How the command ended: not started at all, or with its exit status and
/// output.
pub enum CommandRun {
    NotStarted,
    Finished { success: bool, stdout: String, stderr: String },
}

/// The answer to a command: its output when it succeeded; 503 when it could
/// not be started; else 400 with CloudPanel's error.
pub fn command_result(run: CommandRun) -> (r: Result<String, ErrorReply>)
    ensures
        match run {
            CommandRun::NotStarted => r matches Err(e) && reply_is(
                e,
                503,
                "failed to run CloudPanel CLI"@,
            ),
            CommandRun::Finished { success, stdout, stderr } => if success {
                r matches Ok(s) && s@ == stdout@
            } else {
                r matches Err(e) && reply_is(e, 400, error_message_of(stdout@, stderr@))
            },
        },
{
    match run {
        CommandRun::NotStarted => Err(error_reply(503, "failed to run CloudPanel CLI")),
        CommandRun::Finished { success, stdout, stderr } => {
            if success {
                Ok(stdout)
            } else {
                Err(
                    ErrorReply {
                        status: 400,
                        message: cloudpanel_error_message(stdout.as_str(), stderr.as_str()),
                    },
                )
            }
        },
    }
}

/// The lifecycle phase a command's answer reports.
pub fn outcome_phase(r: &Result<String, ErrorReply>) -> (p: CommandPhase)
    ensures
        p == (if r is Ok {
            CommandPhase::Succeeded
        } else {
            CommandPhase::Failed
        }),
{
    match r {
        Ok(_) => CommandPhase::Succeeded,
        Err(_) => CommandPhase::Failed,
    }
}

} // verus!
