//! Files inside a site's volume: the relative paths that may be used there and
//! the `docker run` arguments of the short-lived helper containers that read,
//! write and prepare them.
use vstd::prelude::*;

use crate::text::{
    before_last, before_last_chars, chars_of, concat2, contains, contains_seq,
    has_prefix, owned, replace_char, replace_chars, string_of, strip_start, trim,
    trim_chars, trim_start_char, CharClass,
};

verus! {

/// A relative path was refused.
#[derive(Clone, Copy, Debug, PartialEq, Eq, Structural)]
pub enum SitePathError {
    /// The path climbs out of the volume with `..`.
    Traversal,
}

impl SitePathError {
    pub fn message(&self) -> (s: String)
        ensures
            s@ == "path traversal not allowed"@,
    {
        owned("path traversal not allowed")
    }
}

/// The path as it is used inside the volume: trimmed, with `\` turned into
/// `/`, and without the slashes at its start.
pub open spec fn site_path(p: Seq<char>) -> Seq<char> {
    strip_start(replace_char(trim(p), '\\', '/'), CharClass::Exactly('/'))
}

/// A path inside a site's volume, relative to its root; refused when it
/// holds `..` anywhere.
pub fn sanitize_site_path(path: &str) -> (r: Result<String, SitePathError>)
    ensures
        match r {
            Ok(s) => s@ == site_path(path@) && !contains_seq(site_path(path@), ".."@),
            Err(e) => e == SitePathError::Traversal && contains_seq(site_path(path@), ".."@),
        },
{
    let v = chars_of(path);
    let t = trim_chars(v.as_slice());
    let replaced = replace_chars(t.as_slice(), '\\', '/');
    let rel = trim_start_char(replaced.as_slice(), '/');
    let dots = chars_of("..");
    if contains(rel.as_slice(), dots.as_slice()) {
        Err(SitePathError::Traversal)
    } else {
        Ok(string_of(&rel))
    }
}

proof fn lemma_strip_start_suffix(s: Seq<char>, k: CharClass) -> (i: int)
    ensures
        0 <= i <= s.len(),
        strip_start(s, k) == s.skip(i),
        strip_start(s, k).len() == 0 || !crate::text::in_class(k, strip_start(s, k)[0]),
    decreases s.len(),
{
    if s.len() > 0 && crate::text::in_class(k, s[0]) {
        let j = lemma_strip_start_suffix(s.drop_first(), k);
        assert(s.drop_first().skip(j) =~= s.skip(j + 1));
        j + 1
    } else {
        assert(s.skip(0) =~= s);
        0
    }
}

/// A path that `sanitize_site_path` accepts stays inside the volume: it does
/// not start with `/`, holds no `\` and no `..`.
pub proof fn lemma_accepted_path_is_relative(path: Seq<char>)
    requires
        !contains_seq(site_path(path), ".."@),
    ensures
        !has_prefix(site_path(path), "/"@),
        forall|i: int| 0 <= i < site_path(path).len() ==> site_path(path)[i] != '\\',
{
    let r = replace_char(trim(path), '\\', '/');
    let i = lemma_strip_start_suffix(r, CharClass::Exactly('/'));
    reveal_strlit("/");
    if has_prefix(site_path(path), "/"@) {
        assert(site_path(path)[0] == "/"@[0]);
    }
    assert forall|k: int| 0 <= k < site_path(path).len() implies site_path(path)[k] != '\\' by {
        assert(site_path(path)[k] == r[k + i]);
    }
}

/// The directory part of a relative path: what stands before its last `/`,
/// or nothing.
pub fn parent_dir(rel: &str) -> (r: String)
    ensures
        r@ == before_last(rel@, '/'),
{
    let v = chars_of(rel);
    let d = before_last_chars(v.as_slice(), '/');
    string_of(&d)
}

/// The arguments of `docker run` for a shell script over the volume mounted
/// at `/data`.
pub fn volume_run_args(volume: &str, script: &str) -> (args: Vec<String>)
    ensures
        args@.map_values(|a: String| a@) == seq![
            "run"@,
            "--rm"@,
            "-v"@,
            volume@ + ":/data"@,
            "alpine:3"@,
            "sh"@,
            "-c"@,
            script@,
        ],
{
    let mut args: Vec<String> = Vec::new();
    args.push(owned("run"));
    args.push(owned("--rm"));
    args.push(owned("-v"));
    args.push(concat2(volume, ":/data"));
    args.push(owned("alpine:3"));
    args.push(owned("sh"));
    args.push(owned("-c"));
    args.push(owned(script));
    assert(args@.map_values(|a: String| a@) =~= seq![
        "run"@,
        "--rm"@,
        "-v"@,
        volume@ + ":/data"@,
        "alpine:3"@,
        "sh"@,
        "-c"@,
        script@,
    ]);
    args
}

/// The arguments of `docker run` that print one file of the volume, mounted
/// read-only; refused as `sanitize_site_path` refuses the path.
pub fn volume_read_args(volume: &str, rel_path: &str) -> (r: Result<Vec<String>, SitePathError>)
    ensures
        match r {
            Ok(args) => !contains_seq(site_path(rel_path@), ".."@) && args@.map_values(
                |a: String| a@,
            ) == seq![
                "run"@,
                "--rm"@,
                "-v"@,
                volume@ + ":/data:ro"@,
                "alpine:3"@,
                "cat"@,
                "/data/"@ + site_path(rel_path@),
            ],
            Err(e) => e == SitePathError::Traversal && contains_seq(site_path(rel_path@), ".."@),
        },
{
    let rel = match sanitize_site_path(rel_path) {
        Ok(rel) => rel,
        Err(e) => return Err(e),
    };
    let mut args: Vec<String> = Vec::new();
    args.push(owned("run"));
    args.push(owned("--rm"));
    args.push(owned("-v"));
    args.push(concat2(volume, ":/data:ro"));
    args.push(owned("alpine:3"));
    args.push(owned("cat"));
    args.push(concat2("/data/", rel.as_str()));
    assert(args@.map_values(|a: String| a@) =~= seq![
        "run"@,
        "--rm"@,
        "-v"@,
        volume@ + ":/data:ro"@,
        "alpine:3"@,
        "cat"@,
        "/data/"@ + site_path(rel_path@),
    ]);
    Ok(args)
}

/// The arguments of `docker run` that copy the staged file `staged` into the
/// volume at `rel` (an accepted relative path).
pub fn volume_copy_args(volume: &str, staged: &str, rel: &str) -> (args: Vec<String>)
    ensures
        args@.map_values(|a: String| a@) == seq![
            "run"@,
            "--rm"@,
            "-v"@,
            volume@ + ":/data"@,
            "-v"@,
            staged@ + ":/upload:ro"@,
            "alpine:3"@,
            "sh"@,
            "-c"@,
            "cp /upload /data/"@ + rel@,
        ],
{
    let mut args: Vec<String> = Vec::new();
    args.push(owned("run"));
    args.push(owned("--rm"));
    args.push(owned("-v"));
    args.push(concat2(volume, ":/data"));
    args.push(owned("-v"));
    args.push(concat2(staged, ":/upload:ro"));
    args.push(owned("alpine:3"));
    args.push(owned("sh"));
    args.push(owned("-c"));
    args.push(concat2("cp /upload /data/", rel));
    assert(args@.map_values(|a: String| a@) =~= seq![
        "run"@,
        "--rm"@,
        "-v"@,
        volume@ + ":/data"@,
        "-v"@,
        staged@ + ":/upload:ro"@,
        "alpine:3"@,
        "sh"@,
        "-c"@,
        "cp /upload /data/"@ + rel@,
    ]);
    args
}

/// The plan for writing a file into a volume: the directory to create first
/// (when the path has one), the script that creates it, and the path inside
/// the volume.
pub struct VolumeWritePlan {
    pub rel: String,
    pub mkdir_script: Option<String>,
}

/// What writing `rel_path` into a volume does before the copy: the path is
/// checked, and a path with a directory part gets `mkdir -p /data/<dir>`.
pub fn volume_write_plan(rel_path: &str) -> (r: Result<VolumeWritePlan, SitePathError>)
    ensures
        match r {
            Ok(plan) => {
                &&& !contains_seq(site_path(rel_path@), ".."@)
                &&& plan.rel@ == site_path(rel_path@)
                &&& match plan.mkdir_script {
                    Some(s) => before_last(site_path(rel_path@), '/').len() > 0 && s@
                        == "mkdir -p /data/"@ + before_last(site_path(rel_path@), '/'),
                    None => before_last(site_path(rel_path@), '/').len() == 0,
                }
            },
            Err(e) => e == SitePathError::Traversal && contains_seq(site_path(rel_path@), ".."@),
        },
{
    let rel = match sanitize_site_path(rel_path) {
        Ok(rel) => rel,
        Err(e) => return Err(e),
    };
    let dir = parent_dir(rel.as_str());
    let dir_chars = chars_of(dir.as_str());
    let mkdir_script = if dir_chars.len() > 0 {
        Some(concat2("mkdir -p /data/", dir.as_str()))
    } else {
        None
    };
    Ok(VolumeWritePlan { rel, mkdir_script })
}

/// Where an upload with id `id` is staged on the host before it is copied
/// into a volume.
pub fn upload_staging_path(id: &str) -> (s: String)
    ensures
        s@ == "/tmp/featherfly-upload-"@ + id@,
{
    concat2("/tmp/featherfly-upload-", id)
}

/// A staging path with a fresh random id (a hyphenated uuid).
pub fn new_upload_staging_path() -> (s: String)
    ensures
        exists|id: Seq<char>|
            crate::ids::is_hyphenated_uuid(id) && s@ == "/tmp/featherfly-upload-"@ + id,
{
    let id = crate::ids::new_uuid();
    upload_staging_path(id.as_str())
}

} // verus!
