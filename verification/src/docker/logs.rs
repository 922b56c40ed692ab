//! Container logs: what is asked for by default.
use vstd::prelude::*;

use crate::text::owned;

verus! {

pub struct LogsRequest {
    pub follow: bool,
    pub stdout: bool,
    pub stderr: bool,
    pub tail: Option<String>,
}

impl Default for LogsRequest {
    /// Both streams, not followed, the last hundred lines.
    fn default() -> (r: Self)
        ensures
            !r.follow,
            r.stdout,
            r.stderr,
            r.tail matches Some(t) && t@ == "100"@,
    {
        LogsRequest { follow: false, stdout: true, stderr: true, tail: Some(owned("100")) }
    }
}

/// How many lines from the end are asked for: the request's own number, or
/// the last hundred.
pub fn logs_tail(request: &LogsRequest) -> (t: String)
    ensures
        t@ == (match request.tail {
            Some(x) => x@,
            None => "100"@,
        }),
{
    match &request.tail {
        Some(x) => owned(x.as_str()),
        None => owned("100"),
    }
}

} // verus!
