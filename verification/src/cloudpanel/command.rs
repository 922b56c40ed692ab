//! Arguments of `clpctl` commands: how they are written out, hidden in logs,
//! checked, and taken back from a plugin that rewrote them.
use vstd::prelude::*;

use crate::text::{
    chars_of, is_control, is_control_char, opt_view, owned, push_all, push_str, string_of,
    string_views, trim, trim_chars,
};

verus! {

/// One `--name=value` (or bare `--name`) argument of a `clpctl` command.
/// A sensitive value is never written to logs or events.
pub struct CliArg {
    pub name: String,
    pub value: Option<String>,
    pub sensitive: bool,
}

/// An argument as plain values: name, value, sensitivity.
pub open spec fn arg_view(a: CliArg) -> (Seq<char>, Option<Seq<char>>, bool) {
    (a.name@, opt_view(a.value), a.sensitive)
}

pub open spec fn arg_views(v: Seq<CliArg>) -> Seq<(Seq<char>, Option<Seq<char>>, bool)> {
    v.map_values(|a: CliArg| arg_view(a))
}

pub open spec fn has_control(s: Seq<char>) -> bool {
    exists|i: int| 0 <= i < s.len() && is_control_char(#[trigger] s[i])
}

pub open spec fn control_message(name: Seq<char>) -> Seq<char> {
    "argument "@ + name + " contains unsupported control characters"@
}

/// The command-line form of an argument, or why it cannot be passed.
pub open spec fn raw_of(name: Seq<char>, value: Option<Seq<char>>) -> Result<Seq<char>, Seq<char>> {
    match value {
        None => Ok("--"@ + name),
        Some(v) => if has_control(v) {
            Err(control_message(name))
        } else {
            Ok("--"@ + name + "="@ + v)
        },
    }
}

/// The log form of an argument: a sensitive value shows as eight stars.
pub open spec fn redacted_of(name: Seq<char>, value: Option<Seq<char>>, sensitive: bool) -> Seq<
    char,
> {
    match value {
        Some(v) => if sensitive {
            "--"@ + name + "=********"@
        } else {
            "--"@ + name + "="@ + v
        },
        None => "--"@ + name,
    }
}

/// Refuses a value that holds a control character.
pub fn validate_value(name: &str, value: &str) -> (r: Result<(), String>)
    ensures
        r is Ok <==> !has_control(value@),
        r is Err ==> r->Err_0@ == control_message(name@),
{
    let v = chars_of(value);
    let mut i: usize = 0;
    while i < v.len()
        invariant
            i <= v.len(),
            v@ == value@,
            forall|k: int| 0 <= k < i ==> !is_control_char(v@[k]),
        decreases v.len() - i,
    {
        if is_control(v[i]) {
            let mut m = chars_of("argument ");
            push_str(&mut m, name);
            push_str(&mut m, " contains unsupported control characters");
            return Err(string_of(&m));
        }
        i = i + 1;
    }
    Ok(())
}

impl CliArg {
    pub fn value(name: &str, value: &str, sensitive: bool) -> (a: CliArg)
        ensures
            arg_view(a) == (name@, Some(value@), sensitive),
    {
        CliArg { name: owned(name), value: Some(owned(value)), sensitive }
    }

    pub fn flag(name: &str) -> (a: CliArg)
        ensures
            arg_view(a) == (name@, None::<Seq<char>>, false),
    {
        CliArg { name: owned(name), value: None, sensitive: false }
    }

    pub fn raw(&self) -> (r: Result<String, String>)
        ensures
            match raw_of(self.name@, opt_view(self.value)) {
                Ok(s) => r is Ok && r->Ok_0@ == s,
                Err(e) => r is Err && r->Err_0@ == e,
            },
    {
        let mut out = chars_of("--");
        push_str(&mut out, self.name.as_str());
        match &self.value {
            None => Ok(string_of(&out)),
            Some(v) => {
                match validate_value(self.name.as_str(), v.as_str()) {
                    Err(e) => Err(e),
                    Ok(()) => {
                        out.push('=');
                        push_str(&mut out, v.as_str());
                        assert(out@ =~= "--"@ + self.name@ + "="@ + v@) by {
                            reveal_strlit("=");
                        }
                        Ok(string_of(&out))
                    },
                }
            },
        }
    }

    pub fn redacted(&self) -> (r: String)
        ensures
            r@ == redacted_of(self.name@, opt_view(self.value), self.sensitive),
    {
        let mut out = chars_of("--");
        push_str(&mut out, self.name.as_str());
        match &self.value {
            Some(v) => {
                if self.sensitive {
                    push_str(&mut out, "=********");
                } else {
                    out.push('=');
                    push_str(&mut out, v.as_str());
                    assert(out@ =~= "--"@ + self.name@ + "="@ + v@) by {
                        reveal_strlit("=");
                    }
                }
            },
            None => {},
        }
        string_of(&out)
    }
}

/// The command-line forms of all arguments, or the first argument's error.
pub open spec fn raw_all(args: Seq<(Seq<char>, Option<Seq<char>>, bool)>) -> Result<
    Seq<Seq<char>>,
    Seq<char>,
>
    decreases args.len(),
{
    if args.len() == 0 {
        Ok(seq![])
    } else {
        match raw_all(args.drop_last()) {
            Err(e) => Err(e),
            Ok(prev) => match raw_of(args.last().0, args.last().1) {
                Err(e) => Err(e),
                Ok(s) => Ok(prev.push(s)),
            },
        }
    }
}

pub fn raw_args(args: &[CliArg]) -> (r: Result<Vec<String>, String>)
    ensures
        match raw_all(arg_views(args@)) {
            Ok(v) => r is Ok && string_views(r->Ok_0@) == v,
            Err(e) => r is Err && r->Err_0@ == e,
        },
{
    let mut out: Vec<String> = Vec::new();
    let mut i: usize = 0;
    assert(arg_views(args@).take(0) =~= Seq::<(Seq<char>, Option<Seq<char>>, bool)>::empty());
    assert(string_views(out@) =~= Seq::<Seq<char>>::empty());
    while i < args.len()
        invariant
            i <= args.len(),
            raw_all(arg_views(args@).take(i as int)) == Ok::<Seq<Seq<char>>, Seq<char>>(
                string_views(out@),
            ),
        decreases args.len() - i,
    {
        let ghost t = arg_views(args@).take(i + 1);
        assert(t.drop_last() =~= arg_views(args@).take(i as int));
        assert(t.last() == arg_view(args@[i as int]));
        match args[i].raw() {
            Err(e) => {
                proof {
                    assert(arg_views(args@).take(args@.len() as int) =~= arg_views(args@));
                    lemma_raw_all_first_err(arg_views(args@), i + 1, args@.len() as int);
                }
                return Err(e);
            },
            Ok(s) => {
                let ghost before = string_views(out@);
                out.push(s);
                assert(string_views(out@) =~= before.push(s@));
            },
        }
        i = i + 1;
    }
    assert(arg_views(args@).take(args@.len() as int) =~= arg_views(args@));
    Ok(out)
}

proof fn lemma_raw_all_first_err(a: Seq<(Seq<char>, Option<Seq<char>>, bool)>, i: int, k: int)
    requires
        0 <= i <= k <= a.len(),
        raw_all(a.take(i)) is Err,
    ensures
        raw_all(a.take(k)) == raw_all(a.take(i)),
    decreases k - i,
{
    if k > i {
        lemma_raw_all_first_err(a, i, k - 1);
        assert(a.take(k).drop_last() =~= a.take(k - 1));
    }
}

/// The command line as it is logged: binary, command, then each argument
/// in its log form.
pub open spec fn redacted_argv_of(
    binary: Seq<char>,
    command: Seq<char>,
    args: Seq<(Seq<char>, Option<Seq<char>>, bool)>,
) -> Seq<Seq<char>> {
    seq![binary, command] + args.map_values(
        |a: (Seq<char>, Option<Seq<char>>, bool)| redacted_of(a.0, a.1, a.2),
    )
}

pub fn redacted_argv(binary: &str, command: &str, args: &[CliArg]) -> (r: Vec<String>)
    ensures
        string_views(r@) == redacted_argv_of(binary@, command@, arg_views(args@)),
{
    let mut out: Vec<String> = Vec::new();
    out.push(owned(binary));
    out.push(owned(command));
    let mut i: usize = 0;
    while i < args.len()
        invariant
            i <= args.len(),
            string_views(out@) =~= redacted_argv_of(
                binary@,
                command@,
                arg_views(args@).take(i as int),
            ),
        decreases args.len() - i,
    {
        let s = args[i].redacted();
        let ghost before = string_views(out@);
        out.push(s);
        assert(string_views(out@) =~= before.push(s@));
        assert(arg_views(args@).take(i + 1) =~= arg_views(args@).take(i as int).push(
            arg_view(args@[i as int]),
        ));
        i = i + 1;
    }
    assert(arg_views(args@).take(args@.len() as int) =~= arg_views(args@));
    out
}

pub open spec fn cancel_message_of(reason: Seq<char>) -> Seq<char> {
    if trim(reason).len() == 0 {
        "CloudPanel command cancelled by plugin"@
    } else {
        trim(reason)
    }
}

/// Why a plugin hook cancelled a command, as the response says it.
pub fn cancel_message(reason: &str) -> (m: String)
    ensures
        m@ == cancel_message_of(reason@),
{
    let t = trim_chars(chars_of(reason).as_slice());
    if t.len() == 0 {
        owned("CloudPanel command cancelled by plugin")
    } else {
        string_of(&t)
    }
}

/// Why a plugin's rewritten argument list was refused.
#[derive(Clone, Copy, Debug, PartialEq, Eq, Structural)]
pub enum HookArgsError {
    InvalidJson,
    UnsupportedArgument,
    DuplicateArgument,
}

impl HookArgsError {
    pub fn message(&self) -> (m: String)
        ensures
            m@ == match *self {
                HookArgsError::InvalidJson => "CloudPanel plugin returned invalid args JSON"@,
                HookArgsError::UnsupportedArgument => "CloudPanel plugin returned unsupported argument"@,
                HookArgsError::DuplicateArgument => "CloudPanel plugin returned duplicate argument"@,
            },
    {
        match self {
            HookArgsError::InvalidJson => owned("CloudPanel plugin returned invalid args JSON"),
            HookArgsError::UnsupportedArgument => owned(
                "CloudPanel plugin returned unsupported argument",
            ),
            HookArgsError::DuplicateArgument => owned(
                "CloudPanel plugin returned duplicate argument",
            ),
        }
    }
}

/// The sensitivity that the original arguments give `name`: that of its
/// last occurrence, or none where it does not occur.
pub open spec fn allowed_sensitivity(
    original: Seq<(Seq<char>, Option<Seq<char>>, bool)>,
    name: Seq<char>,
) -> Option<bool>
    decreases original.len(),
{
    if original.len() == 0 {
        None
    } else if original.last().0 == name {
        Some(original.last().2)
    } else {
        allowed_sensitivity(original.drop_last(), name)
    }
}

/// Does `name` occur among the first `j` returned arguments?
pub open spec fn seen_before(returned: Seq<(Seq<char>, Option<Seq<char>>, bool)>, j: int) -> bool {
    exists|k: int| 0 <= k < j && #[trigger] returned[k].0 == returned[j].0
}

/// The outcome of taking back a plugin's argument list: the first argument
/// that the original list does not name, or that repeats an earlier name,
/// refuses the list; otherwise each argument keeps the sensitivity that the
/// original list gives its name.
pub open spec fn normalized_of(
    original: Seq<(Seq<char>, Option<Seq<char>>, bool)>,
    returned: Seq<(Seq<char>, Option<Seq<char>>, bool)>,
) -> Result<Seq<(Seq<char>, Option<Seq<char>>, bool)>, HookArgsError>
    decreases returned.len(),
{
    if returned.len() == 0 {
        Ok(seq![])
    } else {
        match normalized_of(original, returned.drop_last()) {
            Err(e) => Err(e),
            Ok(prev) => {
                let j = returned.len() - 1;
                match allowed_sensitivity(original, returned[j].0) {
                    None => Err(HookArgsError::UnsupportedArgument),
                    Some(s) => if seen_before(returned, j) {
                        Err(HookArgsError::DuplicateArgument)
                    } else {
                        Ok(prev.push((returned[j].0, returned[j].1, s)))
                    },
                }
            },
        }
    }
}

fn sensitivity_of(original: &[CliArg], name: &String) -> (r: Option<bool>)
    ensures
        r == allowed_sensitivity(arg_views(original@), name@),
{
    let mut i: usize = original.len();
    assert(arg_views(original@).take(i as int) =~= arg_views(original@));
    while i > 0
        invariant
            i <= original.len(),
            allowed_sensitivity(arg_views(original@), name@) == allowed_sensitivity(
                arg_views(original@).take(i as int),
                name@,
            ),
        decreases i,
    {
        let ghost t = arg_views(original@).take(i as int);
        assert(t.drop_last() =~= arg_views(original@).take(i - 1));
        if original[i - 1].name == *name {
            return Some(original[i - 1].sensitive);
        }
        i = i - 1;
    }
    None
}

proof fn lemma_seen_before_prefix(r: Seq<(Seq<char>, Option<Seq<char>>, bool)>, i: int, j: int)
    requires
        0 <= j < i <= r.len(),
    ensures
        seen_before(r.take(i), j) == seen_before(r, j),
{
    if seen_before(r, j) {
        let k = choose|k: int| 0 <= k < j && #[trigger] r[k].0 == r[j].0;
        assert(r.take(i)[k].0 == r.take(i)[j].0);
    }
    if seen_before(r.take(i), j) {
        let k = choose|k: int| 0 <= k < j && #[trigger] r.take(i)[k].0 == r.take(i)[j].0;
        assert(r[k].0 == r[j].0);
    }
}

/// Takes back the argument list that a plugin hook returned.
pub fn normalize_hook_args(original: &[CliArg], returned: Vec<CliArg>) -> (r: Result<
    Vec<CliArg>,
    HookArgsError,
>)
    ensures
        match normalized_of(arg_views(original@), arg_views(returned@)) {
            Ok(v) => r is Ok && arg_views(r->Ok_0@) == v,
            Err(e) => r == Err::<Vec<CliArg>, HookArgsError>(e),
        },
{
    let ghost rv = arg_views(returned@);
    let mut out: Vec<CliArg> = Vec::new();
    let mut i: usize = 0;
    assert(rv.take(0) =~= Seq::<(Seq<char>, Option<Seq<char>>, bool)>::empty());
    assert(arg_views(out@) =~= Seq::<(Seq<char>, Option<Seq<char>>, bool)>::empty());
    while i < returned.len()
        invariant
            i <= returned.len(),
            rv == arg_views(returned@),
            normalized_of(arg_views(original@), rv.take(i as int)) == Ok::<
                Seq<(Seq<char>, Option<Seq<char>>, bool)>,
                HookArgsError,
            >(arg_views(out@)),
        decreases returned.len() - i,
    {
        let ghost t = rv.take(i + 1);
        assert(t.drop_last() =~= rv.take(i as int));
        assert(t[i as int] == rv[i as int]);
        let arg = &returned[i];
        let sens = sensitivity_of(original, &arg.name);
        let mut dup = false;
        let mut k: usize = 0;
        while k < i
            invariant
                k <= i < returned.len(),
                rv == arg_views(returned@),
                dup <==> exists|m: int| 0 <= m < k && #[trigger] rv[m].0 == rv[i as int].0,
            decreases i - k,
        {
            assert(rv[k as int] == arg_view(returned@[k as int]));
            assert(rv[i as int] == arg_view(returned@[i as int]));
            let same = returned[k].name == returned[i].name;
            assert(same == (rv[k as int].0 == rv[i as int].0));
            proof {
                if same {
                    assert(exists|m: int| 0 <= m < k + 1 && #[trigger] rv[m].0 == rv[i as int].0);
                } else if !dup {
                    assert forall|m: int| 0 <= m < k + 1 implies #[trigger] rv[m].0 != rv[
                        i as int].0 by {
                        if m < k {
                            if rv[m].0 == rv[i as int].0 {
                                assert(exists|m2: int|
                                    0 <= m2 < k && #[trigger] rv[m2].0 == rv[i as int].0);
                            }
                        }
                    }
                }
            }
            dup = dup || same;
            k = k + 1;
        }
        proof {
            lemma_seen_before_prefix(rv, i + 1, i as int);
            assert(dup == seen_before(rv, i as int));
        }
        match sens {
            None => {
                proof {
                    lemma_normalized_err_stays(arg_views(original@), rv, i + 1, rv.len() as int);
                    assert(rv.take(rv.len() as int) =~= rv);
                }
                return Err(HookArgsError::UnsupportedArgument);
            },
            Some(s) => {
                if dup {
                    proof {
                        lemma_normalized_err_stays(
                            arg_views(original@),
                            rv,
                            i + 1,
                            rv.len() as int,
                        );
                        assert(rv.take(rv.len() as int) =~= rv);
                    }
                    return Err(HookArgsError::DuplicateArgument);
                }
                let a = CliArg { name: arg.name.clone(), value: arg.value.clone(), sensitive: s };
                let ghost before = arg_views(out@);
                out.push(a);
                assert(arg_views(out@) =~= before.push(arg_view(a)));
            },
        }
        i = i + 1;
    }
    assert(rv.take(returned.len() as int) =~= rv);
    Ok(out)
}

proof fn lemma_normalized_err_stays(
    o: Seq<(Seq<char>, Option<Seq<char>>, bool)>,
    r: Seq<(Seq<char>, Option<Seq<char>>, bool)>,
    i: int,
    k: int,
)
    requires
        0 <= i <= k <= r.len(),
        normalized_of(o, r.take(i)) is Err,
    ensures
        normalized_of(o, r.take(k)) == normalized_of(o, r.take(i)),
    decreases k - i,
{
    if k > i {
        lemma_normalized_err_stays(o, r, i, k - 1);
        assert(r.take(k).drop_last() =~= r.take(k - 1));
    }
}

/// The log form of a sensitive argument does not depend on its value.
pub proof fn lemma_sensitive_value_never_logged(name: Seq<char>, v1: Seq<char>, v2: Seq<char>)
    ensures
        redacted_of(name, Some(v1), true) == redacted_of(name, Some(v2), true),
{
}

/// An argument that is not sensitive is logged exactly as it is passed.
pub proof fn lemma_plain_argument_logged_as_passed(name: Seq<char>, value: Option<Seq<char>>)
    requires
        raw_of(name, value) is Ok,
    ensures
        raw_of(name, value) == Ok::<Seq<char>, Seq<char>>(redacted_of(name, value, false)),
{
}

/// A plugin that rewrites a command's arguments can neither add a name the
/// command did not have, nor repeat one, nor change whether a value is
/// sensitive: every argument taken back keeps its name and value and gets
/// the sensitivity the original list gives its name.
pub proof fn lemma_hook_args_keep_sensitivity(
    original: Seq<(Seq<char>, Option<Seq<char>>, bool)>,
    returned: Seq<(Seq<char>, Option<Seq<char>>, bool)>,
)
    requires
        normalized_of(original, returned) is Ok,
    ensures
        ({
            let v = normalized_of(original, returned)->Ok_0;
            &&& v.len() == returned.len()
            &&& forall|i: int|
                0 <= i < v.len() ==> (#[trigger] v[i]).0 == returned[i].0 && v[i].1 == returned[i].1
                    && allowed_sensitivity(original, v[i].0) == Some(v[i].2)
            &&& forall|i: int, j: int| 0 <= i < j < v.len() ==> #[trigger] v[i].0 != #[trigger] v[j].0
        }),
    decreases returned.len(),
{
    if returned.len() > 0 {
        let prev = returned.drop_last();
        lemma_hook_args_keep_sensitivity(original, prev);
        let v = normalized_of(original, returned)->Ok_0;
        let pv = normalized_of(original, prev)->Ok_0;
        let j = returned.len() - 1;
        assert forall|i: int| 0 <= i < v.len() implies (#[trigger] v[i]).0 == returned[i].0 && v[i].1
            == returned[i].1 && allowed_sensitivity(original, v[i].0) == Some(v[i].2) by {
            if i < j {
                assert(v[i] == pv[i]);
                assert(prev[i] == returned[i]);
            }
        }
        assert forall|a: int, b: int| 0 <= a < b < v.len() implies #[trigger] v[a].0 != #[trigger] v[b].0 by {
            if b < j {
                assert(v[a] == pv[a] && v[b] == pv[b]);
            } else {
                assert(v[a] == pv[a]);
                assert(pv[a].0 == prev[a].0);
                assert(prev[a] == returned[a]);
                if v[a].0 == v[b].0 {
                    assert(returned[a].0 == returned[j].0);
                    assert(seen_before(returned, j));
                }
            }
        }
    }
}

} // verus!
