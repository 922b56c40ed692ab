//! Commands run inside containers: the options an exec session is created and
//! started with.
use vstd::prelude::*;

use crate::text::owned;

verus! {

pub struct ExecCreateRequest {
    pub cmd: Vec<String>,
    pub tty: bool,
}

pub struct ExecCreateResponse {
    pub exec_id: String,
    pub container_id: String,
    pub tty: bool,
}

/// The options an exec session is created with.
pub struct ExecOptions {
    pub cmd: Vec<String>,
    pub attach_stdout: bool,
    pub attach_stderr: bool,
    pub attach_stdin: bool,
    pub tty: bool,
}

/// An exec session always attaches standard input and output; standard
/// error is attached only without a terminal (a terminal merges it into the
/// output).
pub fn exec_options(request: ExecCreateRequest) -> (o: ExecOptions)
    ensures
        o.cmd@ == request.cmd@,
        o.attach_stdout,
        o.attach_stderr == !request.tty,
        o.attach_stdin,
        o.tty == request.tty,
{
    ExecOptions {
        attach_stderr: !request.tty,
        tty: request.tty,
        cmd: request.cmd,
        attach_stdout: true,
        attach_stdin: true,
    }
}

/// The answer once Docker created the session `exec_id`.
pub fn exec_response(container_id: &str, exec_id: String, tty: bool) -> (r: ExecCreateResponse)
    ensures
        r.exec_id@ == exec_id@,
        r.container_id@ == container_id@,
        r.tty == tty,
{
    ExecCreateResponse { exec_id, container_id: owned(container_id), tty }
}

/// How a session is started: attached, with the terminal it was created with.
pub struct ExecStart {
    pub detach: bool,
    pub tty: bool,
}

pub fn exec_start(tty: bool) -> (s: ExecStart)
    ensures
        !s.detach,
        s.tty == tty,
{
    ExecStart { detach: false, tty }
}

/// A session that runs a command to completion and collects its output:
/// no terminal, so standard error is attached too.
pub fn run_request(cmd: Vec<String>) -> (r: ExecCreateRequest)
    ensures
        r.cmd@ == cmd@,
        !r.tty,
{
    ExecCreateRequest { cmd, tty: false }
}

} // verus!
