//! What the HTTP handlers decide: which requests are refused and with what
//! status and message, and the bodies of their answers.
use vstd::prelude::*;

verus! {

/// A refused request: its HTTP status and the error message.
pub struct ErrorReply {
    pub status: u16,
    pub message: String,
}

pub open spec fn reply_is(r: ErrorReply, status: u16, message: Seq<char>) -> bool {
    r.status == status && r.message@ == message
}

pub fn error_reply(status: u16, message: &str) -> (r: ErrorReply)
    ensures
        reply_is(r, status, message@),
{
    ErrorReply { status, message: crate::text::owned(message) }
}

} // verus!

pub mod audit;
pub mod containers;
pub mod docker;
pub mod files;
pub mod metrics;
pub mod proxy;
pub mod sites;
pub mod system;
