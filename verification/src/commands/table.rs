//! The subcommands the command line offers, with what each is for.
use vstd::prelude::*;

verus! {

pub open spec fn subcommands() -> Seq<(Seq<char>, Seq<char>)> {
    seq![
        ("version"@, "Prints the current executable version and exits."@),
        ("install"@, "Install FeatherFly binary, config layout, and systemd unit."@),
        ("configure"@, "Configure CloudPanel URL and authentication token."@),
        ("diagnostics"@, "Collects diagnostic information for support and troubleshooting."@),
        ("docs"@, "Generate static plugin SDK documentation."@),
        ("plugin"@, "Build, install, and ship FeatherFly plugins."@),
    ]
}

/// The subcommands, by name and description, in the order they are offered.
pub fn commands() -> (t: Vec<(&'static str, &'static str)>)
    ensures
        t@.map_values(|e: (&str, &str)| (e.0@, e.1@)) == subcommands(),
{
    let mut t: Vec<(&'static str, &'static str)> = Vec::new();
    t.push(("version", "Prints the current executable version and exits."));
    t.push(("install", "Install FeatherFly binary, config layout, and systemd unit."));
    t.push(("configure", "Configure CloudPanel URL and authentication token."));
    t.push(("diagnostics", "Collects diagnostic information for support and troubleshooting."));
    t.push(("docs", "Generate static plugin SDK documentation."));
    t.push(("plugin", "Build, install, and ship FeatherFly plugins."));
    assert(t@.map_values(|e: (&str, &str)| (e.0@, e.1@)) =~= subcommands());
    t
}

/// Does the command line offer a subcommand of this name?
pub fn is_subcommand(name: &str) -> (b: bool)
    ensures
        b == exists|i: int| 0 <= i < subcommands().len() && #[trigger] subcommands()[i].0 == name@,
{
    let t = commands();
    let n = crate::text::chars_of(name);
    let mut i: usize = 0;
    while i < t.len()
        invariant
            i <= t@.len(),
            t@.map_values(|e: (&str, &str)| (e.0@, e.1@)) == subcommands(),
            n@ == name@,
            forall|k: int| 0 <= k < i ==> #[trigger] subcommands()[k].0 != name@,
        decreases t.len() - i,
    {
        let (cmd, _) = t[i];
        assert(subcommands()[i as int].0 == cmd@);
        if crate::text::eq_str(n.as_slice(), cmd) {
            return true;
        }
        i = i + 1;
    }
    false
}

} // verus!
