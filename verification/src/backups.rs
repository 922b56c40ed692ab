//! Site backups: where an archive goes, and the helper containers that pack
//! a site's volume into it and unpack it again.
use vstd::prelude::*;

use crate::cache::BackupRecord;
use crate::text::{string_views, chars_of, concat2, concat3, join_path, owned, path_join, string_of};

verus! {

pub struct BackupResult {
    pub id: String,
    pub path: String,
}

/// A backup needs the site's volume.
pub struct NoVolume;

impl NoVolume {
    pub fn message(&self) -> (s: &'static str)
        ensures
            s@ == "site has no volume"@,
    {
        "site has no volume"
    }
}

pub fn backup_volume(volume: &Option<String>) -> (r: Result<String, NoVolume>)
    ensures
        match volume {
            Some(v) => r matches Ok(x) && x@ == v@,
            None => r is Err,
        },
{
    match volume {
        Some(v) => Ok(owned(v.as_str())),
        None => Err(NoVolume),
    }
}

/// The directory of a site's backups.
pub fn site_backup_dir(backup_directory: &str, site_id: &str) -> (d: String)
    ensures
        d@ == path_join(backup_directory@, site_id@),
{
    string_of(&join_path(chars_of(backup_directory).as_slice(), chars_of(site_id).as_slice()))
}

/// The archive of backup `id` in `dir`.
pub fn backup_archive_path(dir: &str, id: &str) -> (p: String)
    ensures
        p@ == path_join(dir@, id@ + ".tar.gz"@),
{
    let name = concat2(id, ".tar.gz");
    string_of(&join_path(chars_of(dir).as_slice(), chars_of(name.as_str()).as_slice()))
}

/// The `docker run` arguments that pack the volume (mounted read-only) into
/// `<dir>/<id>.tar.gz`.
pub fn backup_args(volume: &str, dir: &str, id: &str) -> (args: Vec<String>)
    ensures
        string_views(args@) == seq![
            "run"@,
            "--rm"@,
            "-v"@,
            volume@ + ":/data:ro"@,
            "-v"@,
            dir@ + ":/backup"@,
            "alpine:3"@,
            "tar"@,
            "-czf"@,
            "/backup/"@ + id@ + ".tar.gz"@,
            "-C"@,
            "/data"@,
            "."@,
        ],
{
    let mut args: Vec<String> = Vec::new();
    args.push(owned("run"));
    args.push(owned("--rm"));
    args.push(owned("-v"));
    args.push(concat2(volume, ":/data:ro"));
    args.push(owned("-v"));
    args.push(concat2(dir, ":/backup"));
    args.push(owned("alpine:3"));
    args.push(owned("tar"));
    args.push(owned("-czf"));
    args.push(concat3("/backup/", id, ".tar.gz"));
    args.push(owned("-C"));
    args.push(owned("/data"));
    args.push(owned("."));
    assert(string_views(args@) =~= seq![
        "run"@,
        "--rm"@,
        "-v"@,
        volume@ + ":/data:ro"@,
        "-v"@,
        dir@ + ":/backup"@,
        "alpine:3"@,
        "tar"@,
        "-czf"@,
        "/backup/"@ + id@ + ".tar.gz"@,
        "-C"@,
        "/data"@,
        "."@,
    ]);
    args
}

pub open spec fn restore_script(file_name: Seq<char>) -> Seq<char> {
    "rm -rf /data/* /data/.[!.]* /data/..?* 2>/dev/null; tar -xzf /backup/"@ + file_name
        + " -C /data"@
}

/// The `docker run` arguments that empty the volume and unpack the archive
/// `file_name` of directory `parent` into it.
pub fn restore_args(volume: &str, parent: &str, file_name: &str) -> (args: Vec<String>)
    ensures
        string_views(args@) == seq![
            "run"@,
            "--rm"@,
            "-v"@,
            volume@ + ":/data"@,
            "-v"@,
            parent@ + ":/backup:ro"@,
            "alpine:3"@,
            "sh"@,
            "-c"@,
            restore_script(file_name@),
        ],
{
    let mut args: Vec<String> = Vec::new();
    args.push(owned("run"));
    args.push(owned("--rm"));
    args.push(owned("-v"));
    args.push(concat2(volume, ":/data"));
    args.push(owned("-v"));
    args.push(concat2(parent, ":/backup:ro"));
    args.push(owned("alpine:3"));
    args.push(owned("sh"));
    args.push(owned("-c"));
    args.push(
        concat3(
            "rm -rf /data/* /data/.[!.]* /data/..?* 2>/dev/null; tar -xzf /backup/",
            file_name,
            " -C /data",
        ),
    );
    assert(string_views(args@) =~= seq![
        "run"@,
        "--rm"@,
        "-v"@,
        volume@ + ":/data"@,
        "-v"@,
        parent@ + ":/backup:ro"@,
        "alpine:3"@,
        "sh"@,
        "-c"@,
        restore_script(file_name@),
    ]);
    args
}

/// The record of a finished backup.
pub fn backup_record(id: &str, site_id: &str, path: &str, now: i64) -> (r: BackupRecord)
    ensures
        r.id@ == id@,
        r.site_id@ == site_id@,
        r.path@ == path@,
        r.created_at == now,
{
    BackupRecord { id: owned(id), site_id: owned(site_id), path: owned(path), created_at: now }
}

/// A fresh backup id: a random uuid in its hyphenated form.
pub fn new_backup_id() -> (id: String)
    ensures
        crate::ids::is_hyphenated_uuid(id@),
{
    crate::ids::new_uuid()
}

} // verus!
