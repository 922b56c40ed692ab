//! What the daemon reads out of the CloudPanel command line's output.
use vstd::prelude::*;

use crate::cloudpanel::tables::{
    key_value_table, lookup, lookup_value, pair_views, parse_key_value_table, table_cells,
    table_parts,
};
use crate::text::{
    chars_of, eq_str, lines, lines_of, parse_unsigned, parse_unsigned_chars, push_all, push_str,
    slice_chars, string_of, strip_start, trim, trim_chars, trim_start_char, views, CharClass,
};

verus! {

/// The database master credentials that `db:show:master-credentials` prints.
pub struct MasterCredentials {
    pub host: String,
    pub port: u16,
    pub username: String,
    pub password: String,
}

/// One row of `vhost-templates:list`.
pub struct VhostTemplate {
    pub name: String,
    pub root_directory: String,
    pub template_type: String,
}

/// A vhost template and its text, as `vhost-template:view` shows it.
pub struct VhostTemplateView {
    pub name: String,
    pub template: String,
}

pub open spec fn missing_key_message(key: Seq<char>) -> Seq<char> {
    "CloudPanel response did not include "@ + key
}

pub open spec fn invalid_port_message() -> Seq<char> {
    "CloudPanel returned an invalid database port"@
}

/// Host, port, user name and password of a master-credentials table, or the
/// message that says what is wrong with it.
pub open spec fn credentials_of(output: Seq<char>) -> Result<
    (Seq<char>, nat, Seq<char>, Seq<char>),
    Seq<char>,
> {
    let t = key_value_table(output);
    match lookup(t, "Host"@) {
        None => Err(missing_key_message("Host"@)),
        Some(host) => match lookup(t, "Port"@) {
            None => Err(missing_key_message("Port"@)),
            Some(port_text) => match parse_unsigned(port_text, 65535) {
                None => Err(invalid_port_message()),
                Some(port) => match lookup(t, "User Name"@) {
                    None => Err(missing_key_message("User Name"@)),
                    Some(user) => match lookup(t, "Password"@) {
                        None => Err(missing_key_message("Password"@)),
                        Some(password) => Ok((host, port, user, password)),
                    },
                },
            },
        },
    }
}

fn missing_key(key: &str) -> (m: String)
    ensures
        m@ == missing_key_message(key@),
{
    let mut v = chars_of("CloudPanel response did not include ");
    push_str(&mut v, key);
    string_of(&v)
}

fn required_value(pairs: &Vec<(Vec<char>, Vec<char>)>, key: &str) -> (r: Result<Vec<char>, String>)
    ensures
        match lookup(pair_views(pairs@), key@) {
            Some(v) => r is Ok && r->Ok_0@ == v,
            None => r is Err && r->Err_0@ == missing_key_message(key@),
        },
{
    match lookup_value(pairs, key) {
        Some(v) => Ok(v),
        None => Err(missing_key(key)),
    }
}

/// Reads the master-credentials table.
pub fn parse_master_credentials(output: &str) -> (r: Result<MasterCredentials, String>)
    ensures
        match credentials_of(output@) {
            Ok(c) => r is Ok && r->Ok_0.host@ == c.0 && r->Ok_0.port as nat == c.1
                && r->Ok_0.username@ == c.2 && r->Ok_0.password@ == c.3,
            Err(e) => r is Err && r->Err_0@ == e,
        },
{
    let out = chars_of(output);
    let values = parse_key_value_table(out.as_slice());
    let host = match required_value(&values, "Host") {
        Ok(v) => v,
        Err(e) => return Err(e),
    };
    let port_text = match required_value(&values, "Port") {
        Ok(v) => v,
        Err(e) => return Err(e),
    };
    let port = match parse_unsigned_chars(port_text.as_slice(), 65535) {
        Some(p) => p as u16,
        None => {
            let m = chars_of("CloudPanel returned an invalid database port");
            return Err(string_of(&m));
        },
    };
    let username = match required_value(&values, "User Name") {
        Ok(v) => v,
        Err(e) => return Err(e),
    };
    let password = match required_value(&values, "Password") {
        Ok(v) => v,
        Err(e) => return Err(e),
    };
    Ok(
        MasterCredentials {
            host: string_of(&host),
            port,
            username: string_of(&username),
            password: string_of(&password),
        },
    )
}

/// The rows of a vhost template table: name, root directory and type, the
/// header row and the lines with fewer than three cells left out.
pub open spec fn vhost_rows(lines: Seq<Seq<char>>) -> Seq<(Seq<char>, Seq<char>, Seq<char>)>
    decreases lines.len(),
{
    if lines.len() == 0 {
        seq![]
    } else {
        let prev = vhost_rows(lines.drop_last());
        let cells = table_cells(lines.last());
        if cells.len() < 3 || cells[0] == "Name"@ {
            prev
        } else {
            prev.push((cells[0], cells[1], cells[2]))
        }
    }
}

/// A line of the table that lists a template: three cells or more, and not
/// the header.
pub open spec fn is_template_line(line: Seq<char>) -> bool {
    table_cells(line).len() >= 3 && table_cells(line)[0] != "Name"@
}

/// The name, root directory and type that a template line shows.
pub open spec fn template_of_line(line: Seq<char>) -> (Seq<char>, Seq<char>, Seq<char>) {
    (table_cells(line)[0], table_cells(line)[1], table_cells(line)[2])
}

/// Every template line gives one template, in the order of the lines: there
/// are as many templates as template lines, the k-th from the k-th such
/// line; and the templates of two pieces of a table are those of the first
/// followed by those of the second.
pub proof fn lemma_every_template_line_kept(lines: Seq<Seq<char>>, more: Seq<Seq<char>>)
    ensures
        vhost_rows(lines) == lines.filter(|l: Seq<char>| is_template_line(l)).map_values(
            |l: Seq<char>| template_of_line(l),
        ),
        vhost_rows(lines).len() == lines.filter(|l: Seq<char>| is_template_line(l)).len(),
        vhost_rows(lines + more) == vhost_rows(lines) + vhost_rows(more),
    decreases lines.len() + more.len(),
{
    let p = |l: Seq<char>| is_template_line(l);
    let f = |l: Seq<char>| template_of_line(l);
    reveal(Seq::filter);
    if lines.len() > 0 {
        lemma_every_template_line_kept(lines.drop_last(), seq![]);
        let prev = lines.drop_last().filter(p);
        if p(lines.last()) {
            assert(lines.filter(p) == prev.push(lines.last()));
            assert(prev.push(lines.last()).map_values(f) =~= prev.map_values(f).push(f(lines.last())));
        } else {
            assert(lines.filter(p) == prev);
        }
    }
    if more.len() > 0 {
        lemma_every_template_line_kept(lines, more.drop_last());
        assert((lines + more).drop_last() =~= lines + more.drop_last());
        assert((lines + more).last() == more.last());
        let a = vhost_rows(lines);
        let b = vhost_rows(more.drop_last());
        assert((a + b).push(template_of_line(more.last())) =~= a + b.push(template_of_line(more.last())));
    } else {
        assert(lines + more =~= lines);
        assert(vhost_rows(lines) + vhost_rows(more) =~= vhost_rows(lines));
    }
}

pub open spec fn template_views(v: Seq<VhostTemplate>) -> Seq<(Seq<char>, Seq<char>, Seq<char>)> {
    v.map_values(|t: VhostTemplate| (t.name@, t.root_directory@, t.template_type@))
}

fn copy_chars(v: &Vec<char>) -> (r: String)
    ensures
        r@ == v@,
{
    string_of(v)
}

/// Reads the vhost template table.
pub fn parse_vhost_templates(output: &str) -> (r: Vec<VhostTemplate>)
    ensures
        template_views(r@) == vhost_rows(lines_of(output@)),
{
    let out = chars_of(output);
    let ls = lines(out.as_slice());
    let ghost l = lines_of(output@);
    let mut r: Vec<VhostTemplate> = Vec::new();
    let mut i: usize = 0;
    assert(l.take(0) =~= Seq::<Seq<char>>::empty());
    while i < ls.len()
        invariant
            i <= ls.len(),
            views(ls@) == l,
            template_views(r@) == vhost_rows(l.take(i as int)),
        decreases ls.len() - i,
    {
        let cells = table_parts(ls[i].as_slice());
        assert(l.take(i + 1).drop_last() =~= l.take(i as int));
        assert(l.take(i + 1).last() == ls@[i as int]@);
        if cells.len() >= 3 && !eq_str(cells[0].as_slice(), "Name") {
            let t = VhostTemplate {
                name: copy_chars(&cells[0]),
                root_directory: copy_chars(&cells[1]),
                template_type: copy_chars(&cells[2]),
            };
            let ghost before = template_views(r@);
            r.push(t);
            assert(template_views(r@) =~= before.push((cells@[0]@, cells@[1]@, cells@[2]@)));
        }
        i = i + 1;
    }
    assert(l.take(ls.len() as int) =~= l);
    r
}

/// The pairs of one record: each header with the cell below it.
pub open spec fn zip_cells(headers: Seq<Seq<char>>, cells: Seq<Seq<char>>) -> Seq<
    (Seq<char>, Seq<char>),
> {
    Seq::new(headers.len(), |i: int| (headers[i], cells[i]))
}

/// Reading a table line by line: the first line with two or more cells gives
/// the headers; each later line with as many cells as there are headers, and
/// other cells than the headers, gives a record.
pub open spec fn records_state(lines: Seq<Seq<char>>) -> (
    Seq<Seq<char>>,
    Seq<Seq<(Seq<char>, Seq<char>)>>,
)
    decreases lines.len(),
{
    if lines.len() == 0 {
        (seq![], seq![])
    } else {
        let (h, recs) = records_state(lines.drop_last());
        let cells = table_cells(lines.last());
        if cells.len() < 2 {
            (h, recs)
        } else if h.len() == 0 {
            (cells, recs)
        } else if cells.len() != h.len() || cells == h {
            (h, recs)
        } else {
            (h, recs.push(zip_cells(h, cells)))
        }
    }
}

pub open spec fn table_records(output: Seq<char>) -> Seq<Seq<(Seq<char>, Seq<char>)>> {
    records_state(lines_of(output)).1
}

pub open spec fn record_views(v: Seq<Vec<(String, String)>>) -> Seq<Seq<(Seq<char>, Seq<char>)>> {
    v.map_values(
        |r: Vec<(String, String)>| r@.map_values(|p: (String, String)| (p.0@, p.1@)),
    )
}

fn zip_record(headers: &Vec<Vec<char>>, cells: &Vec<Vec<char>>) -> (r: Vec<(String, String)>)
    requires
        headers.len() == cells.len(),
    ensures
        r@.map_values(|p: (String, String)| (p.0@, p.1@)) == zip_cells(views(headers@), views(cells@)),
{
    let mut r: Vec<(String, String)> = Vec::new();
    let mut i: usize = 0;
    while i < headers.len()
        invariant
            i <= headers.len(),
            headers.len() == cells.len(),
            r@.map_values(|p: (String, String)| (p.0@, p.1@)) =~= zip_cells(
                views(headers@),
                views(cells@),
            ).take(i as int),
        decreases headers.len() - i,
    {
        let h = copy_chars(&headers[i]);
        let c = copy_chars(&cells[i]);
        let ghost before = r@;
        r.push((h, c));
        assert(r@ == before.push((h, c)));
        assert(r@.map_values(|p: (String, String)| (p.0@, p.1@)) =~= before.map_values(
            |p: (String, String)| (p.0@, p.1@),
        ).push((h@, c@)));
        assert(zip_cells(views(headers@), views(cells@)).take(i + 1) =~= zip_cells(
            views(headers@),
            views(cells@),
        ).take(i as int).push((headers@[i as int]@, cells@[i as int]@)));
        i = i + 1;
    }
    r
}

fn copy_vecs(v: &Vec<Vec<char>>) -> (r: Vec<Vec<char>>)
    ensures
        views(r@) == views(v@),
{
    let mut r: Vec<Vec<char>> = Vec::new();
    let mut i: usize = 0;
    while i < v.len()
        invariant
            i <= v.len(),
            views(r@) =~= views(v@).take(i as int),
        decreases v.len() - i,
    {
        let c = slice_chars(v[i].as_slice(), 0, v[i].len());
        assert(v@[i as int]@.subrange(0, v@[i as int]@.len() as int) =~= v@[i as int]@);
        let ghost before = r@;
        r.push(c);
        assert(views(r@) =~= views(before).push(c@));
        assert(views(v@).take(i + 1) =~= views(v@).take(i as int).push(v@[i as int]@));
        i = i + 1;
    }
    r
}

fn same_cells(a: &Vec<Vec<char>>, b: &Vec<Vec<char>>) -> (r: bool)
    ensures
        r == (views(a@) == views(b@)),
{
    if a.len() != b.len() {
        assert(views(a@).len() != views(b@).len());
        return false;
    }
    let mut i: usize = 0;
    while i < a.len()
        invariant
            i <= a.len(),
            a.len() == b.len(),
            forall|k: int| 0 <= k < i ==> a@[k]@ == b@[k]@,
        decreases a.len() - i,
    {
        if !crate::text::eq_chars(a[i].as_slice(), b[i].as_slice()) {
            assert(views(a@)[i as int] != views(b@)[i as int]);
            return false;
        }
        i = i + 1;
    }
    assert(views(a@) =~= views(b@));
    true
}

/// Reads a table of records (`user:list`): each record pairs the headers
/// with its cells; a map built from a record's pairs is the record.
pub fn parse_table_records(output: &str) -> (r: Vec<Vec<(String, String)>>)
    ensures
        record_views(r@) == table_records(output@),
{
    let out = chars_of(output);
    let ls = lines(out.as_slice());
    let ghost l = lines_of(output@);
    let mut headers: Vec<Vec<char>> = Vec::new();
    let mut records: Vec<Vec<(String, String)>> = Vec::new();
    let mut i: usize = 0;
    assert(l.take(0) =~= Seq::<Seq<char>>::empty());
    while i < ls.len()
        invariant
            i <= ls.len(),
            views(ls@) == l,
            (views(headers@), record_views(records@)) == records_state(l.take(i as int)),
        decreases ls.len() - i,
    {
        let cells = table_parts(ls[i].as_slice());
        assert(l.take(i + 1).drop_last() =~= l.take(i as int));
        assert(l.take(i + 1).last() == ls@[i as int]@);
        if cells.len() < 2 {
        } else if headers.len() == 0 {
            headers = copy_vecs(&cells);
        } else if cells.len() != headers.len() || same_cells(&cells, &headers) {
        } else {
            let rec = zip_record(&headers, &cells);
            let ghost before = record_views(records@);
            records.push(rec);
            assert(record_views(records@) =~= before.push(
                rec@.map_values(|p: (String, String)| (p.0@, p.1@)),
            ));
        }
        i = i + 1;
    }
    assert(l.take(ls.len() as int) =~= l);
    records
}

/// `s` with each `"` followed by a line feed taken out, left to right.
pub open spec fn drop_quote_breaks(s: Seq<char>) -> Seq<char>
    decreases s.len(),
{
    if s.len() == 0 {
        s
    } else if s.len() >= 2 && s[0] == '"' && s[1] == '\n' {
        drop_quote_breaks(s.skip(2))
    } else {
        seq![s[0]] + drop_quote_breaks(s.skip(1))
    }
}

/// The message of a failed command: its standard output, or its error
/// output where the first is blank; trimmed, without leading quotes and
/// without the `"` that ends a printed line.
pub open spec fn error_message_of(stdout: Seq<char>, stderr: Seq<char>) -> Seq<char> {
    let message = if trim(stdout).len() == 0 {
        trim(stderr)
    } else {
        trim(stdout)
    };
    trim(drop_quote_breaks(strip_start(message, CharClass::Exactly('"'))))
}

fn remove_quote_breaks(v: &[char]) -> (r: Vec<char>)
    ensures
        r@ == drop_quote_breaks(v@),
{
    let mut r: Vec<char> = Vec::new();
    let mut i: usize = 0;
    assert(v@.skip(0) =~= v@);
    while i < v.len()
        invariant
            i <= v.len(),
            r@ + drop_quote_breaks(v@.skip(i as int)) == drop_quote_breaks(v@),
        decreases v.len() - i,
    {
        let ghost rest = v@.skip(i as int);
        if i + 1 < v.len() && v[i] == '"' && v[i + 1] == '\n' {
            assert(rest.skip(2) =~= v@.skip(i + 2));
            i = i + 2;
        } else {
            assert(rest.skip(1) =~= v@.skip(i + 1));
            assert(rest[0] == v@[i as int]);
            let ghost before = r@;
            r.push(v[i]);
            assert(r@ + drop_quote_breaks(v@.skip(i + 1)) =~= before + (seq![v@[i as int]]
                + drop_quote_breaks(rest.skip(1))));
            i = i + 1;
        }
    }
    assert(v@.skip(i as int).len() == 0);
    assert(r@ + drop_quote_breaks(v@.skip(i as int)) =~= r@);
    r
}

pub fn cloudpanel_error_message(stdout: &str, stderr: &str) -> (m: String)
    ensures
        m@ == error_message_of(stdout@, stderr@),
{
    let out = trim_chars(chars_of(stdout).as_slice());
    let message = if out.len() == 0 {
        trim_chars(chars_of(stderr).as_slice())
    } else {
        out
    };
    let unquoted = trim_start_char(message.as_slice(), '"');
    let joined = remove_quote_breaks(unquoted.as_slice());
    let r = trim_chars(joined.as_slice());
    string_of(&r)
}

} // verus!
