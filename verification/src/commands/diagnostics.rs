//! `featherfly diagnostics`: the support report, built from what the command
//! gathered about the host, the configuration and the latest log.
use vstd::prelude::*;

use crate::config::{LogRotation, rotation_name};
use crate::text::{
    chars_of, dec_nat, join_path, lines, lines_of, path_join, push_repeat, push_str, push_u64,
    repeat_char, string_of, views,
};

verus! {

pub struct DiagnosticsArgs {
    /// How many of the latest log lines the report ends with.
    pub log_lines: usize,
}

impl Default for DiagnosticsArgs {
    fn default() -> (r: Self)
        ensures
            r.log_lines == 50,
    {
        DiagnosticsArgs { log_lines: 50 }
    }
}

pub struct DiagnosticsCommand;

/// A titled section: the title, and under it as many dashes as the title
/// has bytes.
pub open spec fn section(title: &str) -> Seq<char> {
    title@ + "\n"@ + repeat_char('-', title.len() as nat) + "\n"@
}

/// One `key: value` line.
pub open spec fn entry(key: Seq<char>, value: Seq<char>) -> Seq<char> {
    key + ": "@ + value + "\n"@
}

pub open spec fn bool_text(b: bool) -> Seq<char> {
    if b {
        "true"@
    } else {
        "false"@
    }
}

fn push_section(out: &mut Vec<char>, title: &str)
    ensures
        final(out)@ == old(out)@ + section(title),
{
    let ghost start = out@;
    push_str(out, title);
    push_str(out, "\n");
    push_repeat(out, '-', title.len());
    push_str(out, "\n");
    assert(out@ =~= start + section(title));
}

fn push_entry(out: &mut Vec<char>, key: &str, value: &str)
    ensures
        final(out)@ == old(out)@ + entry(key@, value@),
{
    let ghost start = out@;
    push_str(out, key);
    push_str(out, ": ");
    push_str(out, value);
    push_str(out, "\n");
    assert(out@ =~= start + entry(key@, value@));
}

fn bool_str(b: bool) -> (s: &'static str)
    ensures
        s@ == bool_text(b),
{
    if b {
        "true"
    } else {
        "false"
    }
}

/// Where the latest log file is: the log directory joined with its name.
pub fn latest_log_path(log_directory: &str, latest_file: &str) -> (p: String)
    ensures
        p@ == path_join(log_directory@, latest_file@),
{
    let d = chars_of(log_directory);
    let f = chars_of(latest_file);
    let j = join_path(d.as_slice(), f.as_slice());
    string_of(&j)
}

/// What the report is made of; gathered by the command from the host and
/// from the loaded configuration.
pub struct DiagnosticsInfo {
    pub version: String,
    pub target: String,
    pub kernel: String,
    pub architecture: String,
    pub os: String,
    pub config_path: String,
    pub app_name: String,
    pub debug: bool,
    pub api_host: String,
    pub api_port: u16,
    pub root_directory: String,
    pub log_directory: String,
    pub tmp_directory: String,
    pub username: String,
    pub pid_file: String,
    /// The number of CPUs, when it could be read.
    pub cpu_cores: Option<usize>,
    pub logging_enabled: bool,
    pub level: String,
    pub latest_file: String,
    pub rotation: LogRotation,
    pub max_files: usize,
}

/// The latest log: its text, or the path and the error it could not be read
/// with.
pub enum RecentLog {
    Read(String),
    Failed { path: String, error: String },
}

pub open spec fn cores_text(cores: Option<usize>) -> Seq<char> {
    match cores {
        Some(n) => dec_nat(n as nat),
        None => "unknown"@,
    }
}

/// The last `n` lines of a text, each ended by a line feed.
pub open spec fn tail_lines(ls: Seq<Seq<char>>, n: nat) -> Seq<char>
    decreases ls.len(),
{
    if ls.len() == 0 || n == 0 {
        Seq::empty()
    } else {
        tail_lines(ls.drop_last(), (n - 1) as nat) + ls.last() + "\n"@
    }
}

pub open spec fn recent_text(recent: RecentLog, n: nat) -> Seq<char> {
    match recent {
        RecentLog::Read(contents) => tail_lines(lines_of(contents@), n),
        RecentLog::Failed { path, error } => entry(
            "log read error"@,
            path@ + " ("@ + error@ + ")"@,
        ),
    }
}

pub open spec fn report_text(info: DiagnosticsInfo, recent: RecentLog, log_lines: nat) -> Seq<char> {
    "FeatherFly diagnostics report\n"@ + "\n"@ + section("version") + entry(
        "featherfly"@,
        info.version@,
    ) + entry("target"@, info.target@) + entry("kernel"@, info.kernel@) + entry(
        "architecture"@,
        info.architecture@,
    ) + entry("os"@, info.os@) + section("configuration") + entry(
        "config path"@,
        info.config_path@,
    ) + entry("app name"@, info.app_name@) + entry("debug"@, bool_text(info.debug)) + entry(
        "api listen"@,
        info.api_host@ + ":"@ + dec_nat(info.api_port as nat),
    ) + entry("root directory"@, info.root_directory@) + entry(
        "log directory"@,
        info.log_directory@,
    ) + entry("tmp directory"@, info.tmp_directory@) + entry("username"@, info.username@) + entry(
        "pid file"@,
        info.pid_file@,
    ) + section("runtime") + entry("cpu cores"@, cores_text(info.cpu_cores)) + section("logging")
        + entry("enabled"@, bool_text(info.logging_enabled)) + entry("level"@, info.level@) + entry(
        "latest file"@,
        info.latest_file@,
    ) + entry("archive rotation"@, rotation_name(info.rotation)) + entry(
        "archive max files"@,
        dec_nat(info.max_files as nat),
    ) + section("recent logs") + recent_text(recent, log_lines)
}

proof fn lemma_tail_lines_all(ls: Seq<Seq<char>>, n: nat)
    requires
        n >= ls.len(),
    ensures
        tail_lines(ls, n) == tail_lines(ls, ls.len()),
    decreases ls.len(),
{
    if ls.len() > 0 {
        lemma_tail_lines_all(ls.drop_last(), (n - 1) as nat);
    }
}

fn push_tail_lines(out: &mut Vec<char>, contents: &str, n: usize)
    ensures
        final(out)@ == old(out)@ + tail_lines(lines_of(contents@), n as nat),
{
    let ls = lines(chars_of(contents).as_slice());
    let ghost all = views(ls@);
    let start: usize = if ls.len() > n {
        ls.len() - n
    } else {
        0
    };
    let ghost base = out@;
    let mut i: usize = start;
    assert(out@ =~= base + tail_lines(all.take(i as int), 0));
    while i < ls.len()
        invariant
            start <= i <= ls@.len(),
            all == views(ls@),
            all == lines_of(contents@),
            out@ == base + tail_lines(all.take(i as int), (i - start) as nat),
        decreases ls.len() - i,
    {
        let ghost before = out@;
        crate::text::push_all(out, ls[i].as_slice());
        push_str(out, "\n");
        assert(all.take(i + 1).drop_last() =~= all.take(i as int));
        assert(all.take(i + 1).last() == ls@[i as int]@);
        assert(out@ =~= base + tail_lines(all.take(i + 1), (i + 1 - start) as nat));
        i = i + 1;
    }
    assert(all.take(ls@.len() as int) =~= all);
    proof {
        if n as int >= ls@.len() {
            lemma_tail_lines_all(all, n as nat);
        }
    }
}

/// The report, section by section, ending with the latest `log_lines`
/// lines of the log (or why it could not be read).
pub fn diagnostics_report(info: &DiagnosticsInfo, recent: &RecentLog, log_lines: usize) -> (s: String)
    ensures
        s@ == report_text(*info, *recent, log_lines as nat),
{
    let mut out: Vec<char> = Vec::new();
    push_str(&mut out, "FeatherFly diagnostics report\n");
    push_str(&mut out, "\n");
    push_section(&mut out, "version");
    push_entry(&mut out, "featherfly", info.version.as_str());
    push_entry(&mut out, "target", info.target.as_str());
    push_entry(&mut out, "kernel", info.kernel.as_str());
    push_entry(&mut out, "architecture", info.architecture.as_str());
    push_entry(&mut out, "os", info.os.as_str());
    push_section(&mut out, "configuration");
    push_entry(&mut out, "config path", info.config_path.as_str());
    push_entry(&mut out, "app name", info.app_name.as_str());
    push_entry(&mut out, "debug", bool_str(info.debug));
    let mut listen: Vec<char> = chars_of(info.api_host.as_str());
    listen.push(':');
    push_u64(&mut listen, info.api_port as u64);
    let listen_s = string_of(&listen);
    assert(listen_s@ =~= info.api_host@ + ":"@ + dec_nat(info.api_port as nat)) by {
        reveal_strlit(":");
    }
    push_entry(&mut out, "api listen", listen_s.as_str());
    push_entry(&mut out, "root directory", info.root_directory.as_str());
    push_entry(&mut out, "log directory", info.log_directory.as_str());
    push_entry(&mut out, "tmp directory", info.tmp_directory.as_str());
    push_entry(&mut out, "username", info.username.as_str());
    push_entry(&mut out, "pid file", info.pid_file.as_str());
    push_section(&mut out, "runtime");
    let cores = match info.cpu_cores {
        Some(n) => crate::text::u64_string(n as u64),
        None => crate::text::owned("unknown"),
    };
    push_entry(&mut out, "cpu cores", cores.as_str());
    push_section(&mut out, "logging");
    push_entry(&mut out, "enabled", bool_str(info.logging_enabled));
    push_entry(&mut out, "level", info.level.as_str());
    push_entry(&mut out, "latest file", info.latest_file.as_str());
    push_entry(&mut out, "archive rotation", info.rotation.as_str());
    let max_files = crate::text::u64_string(info.max_files as u64);
    push_entry(&mut out, "archive max files", max_files.as_str());
    push_section(&mut out, "recent logs");
    match recent {
        RecentLog::Read(contents) => push_tail_lines(&mut out, contents.as_str(), log_lines),
        RecentLog::Failed { path, error } => {
            let detail = crate::text::concat3(path.as_str(), " (", error.as_str());
            let detail = crate::text::concat2(detail.as_str(), ")");
            push_entry(&mut out, "log read error", detail.as_str());
        },
    }
    string_of(&out)
}

} // verus!
