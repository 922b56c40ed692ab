//! `featherfly plugin`: building a plugin with cargo and installing its
//! library into the plugins directory.
use vstd::prelude::*;

use crate::text::{string_views, chars_of, join_path, owned, path_join, string_of};

verus! {

pub struct PluginBuildArgs {
    pub path: String,
    pub release: bool,
}

pub struct PluginInstallArgs {
    pub path: String,
}

pub struct PluginShipArgs {
    pub path: String,
}

pub enum PluginArgs {
    Build(PluginBuildArgs),
    Install(PluginInstallArgs),
    Ship(PluginShipArgs),
}

pub struct PluginCommandArgs {
    pub action: PluginArgs,
}

pub struct PluginCommand;

impl Default for PluginBuildArgs {
    /// The sample plugin, in release mode.
    fn default() -> (r: Self)
        ensures
            r.path@ == "plugins/hello"@,
            r.release,
    {
        PluginBuildArgs { path: owned("plugins/hello"), release: true }
    }
}

/// What shipping a plugin does: a release build of it, then its install.
pub fn ship_steps(args: PluginShipArgs) -> (r: (PluginBuildArgs, PluginInstallArgs))
    ensures
        r.0.path@ == args.path@,
        r.0.release,
        r.1.path@ == args.path@,
{
    let build = PluginBuildArgs { path: owned(args.path.as_str()), release: true };
    (build, PluginInstallArgs { path: args.path })
}

/// The arguments of `cargo` that build the plugin whose manifest is
/// `manifest`, in release mode when asked.
pub fn cargo_build_args(manifest: &str, release: bool) -> (args: Vec<String>)
    ensures
        string_views(args@) == (if release {
            seq!["build"@, "--manifest-path"@, manifest@, "--release"@]
        } else {
            seq!["build"@, "--manifest-path"@, manifest@]
        }),
{
    let mut args: Vec<String> = Vec::new();
    args.push(owned("build"));
    args.push(owned("--manifest-path"));
    args.push(owned(manifest));
    let ghost base = string_views(args@);
    assert(base =~= seq!["build"@, "--manifest-path"@, manifest@]);
    if release {
        args.push(owned("--release"));
        assert(string_views(args@) =~= base.push("--release"@));
    }
    args
}

/// Where a plugin's cargo manifest is.
pub fn plugin_manifest(path: &str) -> (m: String)
    ensures
        m@ == path_join(path@, "Cargo.toml"@),
{
    let p = chars_of(path);
    let f = chars_of("Cargo.toml");
    string_of(&join_path(p.as_slice(), f.as_slice()))
}

/// The plugins directory: the configured one, or the default when no
/// configuration was loaded.
pub fn plugins_directory(configured: Option<&str>) -> (d: String)
    ensures
        d@ == (match configured {
            Some(c) => c@,
            None => "/var/lib/featherfly/plugins"@,
        }),
{
    match configured {
        Some(c) => owned(c),
        None => owned("/var/lib/featherfly/plugins"),
    }
}

/// Where an artifact named `file_name` is installed.
pub fn plugin_destination(plugins_directory: &str, file_name: &str) -> (d: String)
    ensures
        d@ == path_join(plugins_directory@, file_name@),
{
    let p = chars_of(plugins_directory);
    let f = chars_of(file_name);
    string_of(&join_path(p.as_slice(), f.as_slice()))
}

} // verus!
