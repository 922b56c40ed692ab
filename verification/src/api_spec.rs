//! Naming in the OpenAPI document: operation ids of plugin routes and of
//! routes that were registered without one, and which routes need a token.
use vstd::prelude::*;

use crate::text::{
    ascii_lower, chars_of, eq_str, is_alnum, is_ascii_alnum, push_str, string_of, strip_end,
    strip_start, to_lower, trim_class, CharClass,
};

verus! {

/// A character of an identifier: ASCII letters and digits in lowercase,
/// everything else an underscore.
pub open spec fn slug_char(c: char) -> char {
    if is_ascii_alnum(c) {
        ascii_lower(c)
    } else {
        '_'
    }
}

pub open spec fn slug(s: Seq<char>) -> Seq<char> {
    s.map_values(|c: char| slug_char(c))
}

/// `s` with each run of `c` shortened to one `c`.
pub open spec fn squeeze(s: Seq<char>, c: char) -> Seq<char>
    decreases s.len(),
{
    if s.len() == 0 {
        s
    } else {
        let p = squeeze(s.drop_last(), c);
        if s.last() == c && p.len() > 0 && p.last() == c {
            p
        } else {
            p.push(s.last())
        }
    }
}

pub open spec fn trim_underscores(s: Seq<char>) -> Seq<char> {
    strip_end(strip_start(s, CharClass::Exactly('_')), CharClass::Exactly('_'))
}

fn slug_chars(v: &[char]) -> (r: Vec<char>)
    ensures
        r@ == slug(v@),
{
    let mut r: Vec<char> = Vec::new();
    let mut i: usize = 0;
    while i < v.len()
        invariant
            i <= v.len(),
            r@ =~= slug(v@.take(i as int)),
        decreases v.len() - i,
    {
        let c = v[i];
        let d = if is_alnum(c) {
            to_lower(c)
        } else {
            '_'
        };
        r.push(d);
        i = i + 1;
    }
    assert(v@.take(v.len() as int) =~= v@);
    r
}

fn squeeze_chars(v: &[char], c: char) -> (r: Vec<char>)
    ensures
        r@ == squeeze(v@, c),
{
    let mut r: Vec<char> = Vec::new();
    let mut i: usize = 0;
    while i < v.len()
        invariant
            i <= v.len(),
            r@ == squeeze(v@.take(i as int), c),
        decreases v.len() - i,
    {
        assert(v@.take(i + 1).drop_last() =~= v@.take(i as int));
        let x = v[i];
        if !(x == c && r.len() > 0 && r[r.len() - 1] == c) {
            r.push(x);
        }
        i = i + 1;
    }
    assert(v@.take(v.len() as int) =~= v@);
    r
}

/// A plugin name as a segment of an operation id.
pub open spec fn sanitized_segment(s: Seq<char>) -> Seq<char> {
    trim_underscores(slug(s))
}

pub fn sanitize_segment(input: &str) -> (r: String)
    ensures
        r@ == sanitized_segment(input@),
{
    let s = slug_chars(chars_of(input).as_slice());
    let t = trim_class(s.as_slice(), CharClass::Exactly('_'));
    string_of(&t)
}

/// The operation id of a plugin route: `plugin_`, the plugin's segment, `_`,
/// then method and path as one identifier, runs of underscores shortened
/// and underscores at its ends taken away.
pub open spec fn plugin_operation_id_of(method: Seq<char>, path: Seq<char>, plugin: Seq<char>) -> Seq<
    char,
> {
    "plugin_"@ + sanitized_segment(plugin) + "_"@ + trim_underscores(
        squeeze(slug(method + "_"@ + path), '_'),
    )
}

pub fn plugin_operation_id(method: &str, path: &str, plugin: &str) -> (r: String)
    ensures
        r@ == plugin_operation_id_of(method@, path@, plugin@),
{
    let mut joined = chars_of(method);
    push_str(&mut joined, "_");
    push_str(&mut joined, path);
    let suffix = trim_class(
        squeeze_chars(slug_chars(joined.as_slice()).as_slice(), '_').as_slice(),
        CharClass::Exactly('_'),
    );
    let mut out = chars_of("plugin_");
    push_str(&mut out, sanitize_segment(plugin).as_str());
    push_str(&mut out, "_");
    crate::text::push_all(&mut out, suffix.as_slice());
    string_of(&out)
}

/// An id never holds two underscores side by side after squeezing.
pub proof fn lemma_squeeze_has_no_double(s: Seq<char>, c: char)
    ensures
        forall|i: int| 0 <= i < squeeze(s, c).len() - 1 ==> !(#[trigger] squeeze(s, c)[i] == c
            && squeeze(s, c)[i + 1] == c),
    decreases s.len(),
{
    if s.len() > 0 {
        let p = squeeze(s.drop_last(), c);
        lemma_squeeze_has_no_double(s.drop_last(), c);
        let q = squeeze(s, c);
        if !(s.last() == c && p.len() > 0 && p.last() == c) {
            assert forall|i: int| 0 <= i < q.len() - 1 implies !(#[trigger] q[i] == c && q[i + 1]
                == c) by {
                if i < p.len() - 1 {
                    assert(q[i] == p[i] && q[i + 1] == p[i + 1]);
                } else {
                    assert(q[i] == p.last());
                }
            }
        }
    }
}

/// The part of an operation id that a route's path gives: `/` becomes `_`,
/// braces are dropped.
pub open spec fn path_suffix(path: Seq<char>) -> Seq<char>
    decreases path.len(),
{
    if path.len() == 0 {
        path
    } else {
        let p = path_suffix(path.drop_last());
        let c = path.last();
        if c == '/' {
            p.push('_')
        } else if c == '{' || c == '}' {
            p
        } else {
            p.push(c)
        }
    }
}

/// The operation id given to a route registered without one.
pub fn operation_id_for(method: &str, path: &str) -> (r: String)
    ensures
        r@ == method@ + path_suffix(path@),
{
    let p = chars_of(path);
    let mut out = chars_of(method);
    let ghost start = out@;
    let mut i: usize = 0;
    while i < p.len()
        invariant
            i <= p.len(),
            p@ == path@,
            start == method@,
            out@ == start + path_suffix(p@.take(i as int)),
        decreases p.len() - i,
    {
        assert(p@.take(i + 1).drop_last() =~= p@.take(i as int));
        let c = p[i];
        if c == '/' {
            out.push('_');
        } else if c == '{' || c == '}' {
        } else {
            out.push(c);
        }
        i = i + 1;
    }
    assert(p@.take(p.len() as int) =~= p@);
    string_of(&out)
}

/// Every route but `/health` asks for the bearer token.
pub fn requires_bearer(path: &str) -> (r: bool)
    ensures
        r == (path@ != "/health"@),
{
    !eq_str(chars_of(path).as_slice(), "/health")
}

/// One operation of the API document, as far as finishing the document
/// touches it.
pub struct OperationEntry {
    pub path: String,
    /// `get`, `post`, `put`, `patch` or `delete`.
    pub method: String,
    pub operation_id: Option<String>,
    /// The operation asks for the bearer token.
    pub bearer: bool,
}

pub open spec fn finished_id(method: Seq<char>, path: Seq<char>, id: Option<Seq<char>>) -> Option<
    Seq<char>,
> {
    match id {
        Some(i) => if i == "route"@ {
            Some(method + path_suffix(path))
        } else {
            Some(i)
        },
        None => None,
    }
}

/// Finishing an operation: one still named `route` (the name routes get
/// when none is given) is named after its method and path, and every
/// operation but `/health` asks for the bearer token.
pub fn finish_operation(e: OperationEntry) -> (r: OperationEntry)
    ensures
        r.path@ == e.path@,
        r.method@ == e.method@,
        crate::text::opt_view(r.operation_id) == finished_id(
            e.method@,
            e.path@,
            crate::text::opt_view(e.operation_id),
        ),
        r.bearer == (e.path@ != "/health"@),
{
    let bearer = requires_bearer(e.path.as_str());
    let id = match e.operation_id {
        Some(i) => if eq_str(chars_of(i.as_str()).as_slice(), "route") {
            Some(operation_id_for(e.method.as_str(), e.path.as_str()))
        } else {
            Some(i)
        },
        None => None,
    };
    OperationEntry { path: e.path, method: e.method, operation_id: id, bearer }
}

/// The document's title.
pub fn api_title(app_name: &str) -> (t: String)
    ensures
        t@ == app_name@ + " API"@,
{
    crate::text::concat2(app_name, " API")
}

/// The methods a plugin route can be documented under.
#[derive(Clone, Copy, Debug, PartialEq, Eq, Structural)]
pub enum RouteMethod {
    Get,
    Post,
    Put,
    Patch,
    Delete,
}

pub open spec fn route_method_of(name: Seq<char>) -> Option<RouteMethod> {
    if name == "GET"@ {
        Some(RouteMethod::Get)
    } else if name == "POST"@ {
        Some(RouteMethod::Post)
    } else if name == "PUT"@ {
        Some(RouteMethod::Put)
    } else if name == "PATCH"@ {
        Some(RouteMethod::Patch)
    } else if name == "DELETE"@ {
        Some(RouteMethod::Delete)
    } else {
        None
    }
}

/// The documented method of a plugin route's method name; other methods
/// are not documented.
pub fn plugin_route_method(name: &str) -> (m: Option<RouteMethod>)
    ensures
        m == route_method_of(name@),
{
    let n = chars_of(name);
    if eq_str(n.as_slice(), "GET") {
        Some(RouteMethod::Get)
    } else if eq_str(n.as_slice(), "POST") {
        Some(RouteMethod::Post)
    } else if eq_str(n.as_slice(), "PUT") {
        Some(RouteMethod::Put)
    } else if eq_str(n.as_slice(), "PATCH") {
        Some(RouteMethod::Patch)
    } else if eq_str(n.as_slice(), "DELETE") {
        Some(RouteMethod::Delete)
    } else {
        None
    }
}

/// A plugin route is added to the document when its method can be
/// documented and the document has no operation for that path and method
/// yet.
pub fn documents_plugin_route(method: Option<RouteMethod>, already_documented: bool) -> (b: bool)
    ensures
        b == (method is Some && !already_documented),
{
    method.is_some() && !already_documented
}

/// The summary of a plugin route's operation.
pub fn plugin_route_summary(plugin: &str) -> (s: String)
    ensures
        s@ == "Plugin route registered by "@ + plugin@,
{
    crate::text::concat2("Plugin route registered by ", plugin)
}

} // verus!
