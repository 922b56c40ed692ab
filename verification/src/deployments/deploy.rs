//! Deploying a site's code from git into its volume.
use vstd::prelude::*;

use crate::text::{string_views, chars_of, concat2, join_path, owned, path_join, string_of};

verus! {

#[derive(Clone, Copy, Debug, PartialEq, Eq, Structural)]
pub enum DeployError {
    /// Neither the request nor the site names a repository.
    NoRepository,
    /// The site has no volume to deploy into.
    NoVolume,
}

impl DeployError {
    pub fn message(&self) -> (s: &'static str)
        ensures
            s@ == (match self {
                DeployError::NoRepository => "no git repository configured for site"@,
                DeployError::NoVolume => "site has no volume"@,
            }),
    {
        match self {
            DeployError::NoRepository => "no git repository configured for site",
            DeployError::NoVolume => "site has no volume",
        }
    }
}

/// The repository to deploy: the reference given with the request, else
/// the site's own repository.
pub fn deploy_repository(git_ref: Option<&str>, site_repo: &Option<String>) -> (r: Result<
    String,
    DeployError,
>)
    ensures
        match git_ref {
            Some(g) => r matches Ok(x) && x@ == g@,
            None => match site_repo {
                Some(s) => r matches Ok(x) && x@ == s@,
                None => r == Err::<String, DeployError>(DeployError::NoRepository),
            },
        },
{
    match git_ref {
        Some(g) => Ok(owned(g)),
        None => match site_repo {
            Some(s) => Ok(owned(s.as_str())),
            None => Err(DeployError::NoRepository),
        },
    }
}

pub open spec fn deploy_dir_of(data_dir: Seq<char>, site_id: Seq<char>) -> Seq<char> {
    path_join(path_join(path_join(data_dir, "sites"@), site_id), "src"@)
}

/// Where a site's code is checked out: `<data>/sites/<id>/src`.
pub fn deploy_dir(data_dir: &str, site_id: &str) -> (d: String)
    ensures
        d@ == deploy_dir_of(data_dir@, site_id@),
{
    let a = join_path(chars_of(data_dir).as_slice(), chars_of("sites").as_slice());
    let b = join_path(a.as_slice(), chars_of(site_id).as_slice());
    let c = join_path(b.as_slice(), chars_of("src").as_slice());
    string_of(&c)
}

/// How the checkout is brought up to date.
pub enum GitStep {
    /// A checkout exists: fast-forward it, in the checkout.
    Pull { args: Vec<String> },
    /// None exists: clear the directory when it is there, and clone into it.
    Clone { clear_dir: bool, args: Vec<String> },
}

pub fn git_step(has_checkout: bool, dir_exists: bool, repo: &str, dir: &str) -> (s: GitStep)
    ensures
        has_checkout ==> (s matches GitStep::Pull { args } && string_views(args@) == seq![
            "pull"@,
            "--ff-only"@,
        ]),
        !has_checkout ==> (s matches GitStep::Clone { clear_dir, args } && clear_dir == dir_exists
            && string_views(args@) == seq!["clone"@, repo@, dir@]),
{
    let mut args: Vec<String> = Vec::new();
    if has_checkout {
        args.push(owned("pull"));
        args.push(owned("--ff-only"));
        assert(string_views(args@) =~= seq!["pull"@, "--ff-only"@]);
        GitStep::Pull { args }
    } else {
        args.push(owned("clone"));
        args.push(owned(repo));
        args.push(owned(dir));
        assert(string_views(args@) =~= seq!["clone"@, repo@, dir@]);
        GitStep::Clone { clear_dir: dir_exists, args }
    }
}

pub open spec fn join_args(args: Seq<Seq<char>>) -> Seq<char> {
    crate::text::join_with(args, " "@)
}

/// The error of a git command that failed.
pub fn git_failure_message(args: &Vec<String>) -> (s: String)
    ensures
        s@ == "git command failed: git "@ + join_args(string_views(args@)),
{
    let joined = crate::text::join_strings(args, " ");
    concat2("git command failed: git ", joined.as_str())
}

/// The `docker run` arguments that copy the checkout `src` into `volume`.
pub fn sync_args(volume: &str, src: &str) -> (args: Vec<String>)
    ensures
        string_views(args@) == seq![
            "run"@,
            "--rm"@,
            "-v"@,
            volume@ + ":/target"@,
            "-v"@,
            src@ + ":/src:ro"@,
            "alpine:3"@,
            "sh"@,
            "-c"@,
            "cp -a /src/. /target/"@,
        ],
{
    let mut args: Vec<String> = Vec::new();
    args.push(owned("run"));
    args.push(owned("--rm"));
    args.push(owned("-v"));
    args.push(concat2(volume, ":/target"));
    args.push(owned("-v"));
    args.push(concat2(src, ":/src:ro"));
    args.push(owned("alpine:3"));
    args.push(owned("sh"));
    args.push(owned("-c"));
    args.push(owned("cp -a /src/. /target/"));
    assert(string_views(args@) =~= seq![
        "run"@,
        "--rm"@,
        "-v"@,
        volume@ + ":/target"@,
        "-v"@,
        src@ + ":/src:ro"@,
        "alpine:3"@,
        "sh"@,
        "-c"@,
        "cp -a /src/. /target/"@,
    ]);
    args
}

/// The site's volume, which a deploy needs.
pub fn deploy_volume(volume: &Option<String>) -> (r: Result<String, DeployError>)
    ensures
        match volume {
            Some(v) => r matches Ok(x) && x@ == v@,
            None => r == Err::<String, DeployError>(DeployError::NoVolume),
        },
{
    match volume {
        Some(v) => Ok(owned(v.as_str())),
        None => Err(DeployError::NoVolume),
    }
}

/// The container restarted after a deploy: the site's, when a restart was
/// asked for and the site has one.
pub fn container_to_restart(restart: bool, container_id: &Option<String>) -> (r: Option<String>)
    ensures
        match r {
            Some(id) => restart && (container_id matches Some(c) && id@ == c@),
            None => !restart || container_id is None,
        },
{
    if restart {
        match container_id {
            Some(c) => Some(owned(c.as_str())),
            None => None,
        }
    } else {
        None
    }
}

} // verus!
