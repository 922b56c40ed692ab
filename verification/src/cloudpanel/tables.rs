//! Reading the ASCII tables that the CloudPanel command line prints.
use vstd::prelude::*;

use crate::text::{
    eq_str, lines, lines_of, slice_chars, split_char, split_chars, trim, trim_chars, views,
};

verus! {

/// The cells that survive of split pieces: each trimmed, empty ones dropped.
pub open spec fn kept_cells(pieces: Seq<Seq<char>>) -> Seq<Seq<char>>
    decreases pieces.len(),
{
    if pieces.len() == 0 {
        seq![]
    } else {
        let prev = kept_cells(pieces.drop_last());
        let t = trim(pieces.last());
        if t.len() > 0 {
            prev.push(t)
        } else {
            prev
        }
    }
}

/// The cells of one table line: the text between `|` signs, trimmed, empty
/// cells (and the ruler lines, which hold none) left out.
pub open spec fn table_cells(line: Seq<char>) -> Seq<Seq<char>> {
    kept_cells(split_char(line, '|'))
}

pub fn table_parts(line: &[char]) -> (cells: Vec<Vec<char>>)
    ensures
        views(cells@) == table_cells(line@),
{
    let pieces = split_chars(line, '|');
    let ghost p = split_char(line@, '|');
    let mut cells: Vec<Vec<char>> = Vec::new();
    let mut i: usize = 0;
    assert(p.take(0) =~= Seq::<Seq<char>>::empty());
    while i < pieces.len()
        invariant
            i <= pieces.len(),
            views(pieces@) == p,
            views(cells@) == kept_cells(p.take(i as int)),
        decreases pieces.len() - i,
    {
        let t = trim_chars(pieces[i].as_slice());
        assert(p.take(i + 1).drop_last() =~= p.take(i as int));
        assert(p.take(i + 1).last() == pieces@[i as int]@);
        if t.len() > 0 {
            let ghost before = views(cells@);
            cells.push(t);
            assert(views(cells@) =~= before.push(t@));
        }
        i = i + 1;
    }
    assert(p.take(pieces.len() as int) =~= p);
    cells
}

/// The key/value pairs of a two-column table, in the order of its lines.
pub open spec fn kv_pairs_of(lines: Seq<Seq<char>>) -> Seq<(Seq<char>, Seq<char>)>
    decreases lines.len(),
{
    if lines.len() == 0 {
        seq![]
    } else {
        let prev = kv_pairs_of(lines.drop_last());
        let cells = table_cells(lines.last());
        if cells.len() >= 2 {
            prev.push((cells[0], cells[1]))
        } else {
            prev
        }
    }
}

pub open spec fn key_value_table(output: Seq<char>) -> Seq<(Seq<char>, Seq<char>)> {
    kv_pairs_of(lines_of(output))
}

/// What a map built from `pairs` holds for `key`: the last pair wins.
pub open spec fn lookup(pairs: Seq<(Seq<char>, Seq<char>)>, key: Seq<char>) -> Option<Seq<char>>
    decreases pairs.len(),
{
    if pairs.len() == 0 {
        None
    } else if pairs.last().0 == key {
        Some(pairs.last().1)
    } else {
        lookup(pairs.drop_last(), key)
    }
}

pub open spec fn pair_views(v: Seq<(Vec<char>, Vec<char>)>) -> Seq<(Seq<char>, Seq<char>)> {
    v.map_values(|p: (Vec<char>, Vec<char>)| (p.0@, p.1@))
}

pub fn parse_key_value_table(output: &[char]) -> (pairs: Vec<(Vec<char>, Vec<char>)>)
    ensures
        pair_views(pairs@) == key_value_table(output@),
{
    let ls = lines(output);
    let ghost l = lines_of(output@);
    let mut pairs: Vec<(Vec<char>, Vec<char>)> = Vec::new();
    let mut i: usize = 0;
    assert(l.take(0) =~= Seq::<Seq<char>>::empty());
    while i < ls.len()
        invariant
            i <= ls.len(),
            views(ls@) == l,
            pair_views(pairs@) == kv_pairs_of(l.take(i as int)),
        decreases ls.len() - i,
    {
        let cells = table_parts(ls[i].as_slice());
        assert(l.take(i + 1).drop_last() =~= l.take(i as int));
        assert(l.take(i + 1).last() == ls@[i as int]@);
        if cells.len() >= 2 {
            let k = slice_chars(cells[0].as_slice(), 0, cells[0].len());
            let v = slice_chars(cells[1].as_slice(), 0, cells[1].len());
            assert(cells@[0]@.subrange(0, cells@[0]@.len() as int) =~= cells@[0]@);
            assert(cells@[1]@.subrange(0, cells@[1]@.len() as int) =~= cells@[1]@);
            let ghost before = pair_views(pairs@);
            pairs.push((k, v));
            assert(pair_views(pairs@) =~= before.push((k@, v@)));
        }
        i = i + 1;
    }
    assert(l.take(ls.len() as int) =~= l);
    pairs
}

/// The value that `pairs` holds for `key`, the last pair winning.
pub fn lookup_value(pairs: &Vec<(Vec<char>, Vec<char>)>, key: &str) -> (r: Option<Vec<char>>)
    ensures
        match lookup(pair_views(pairs@), key@) {
            Some(v) => r is Some && r->0@ == v,
            None => r is None,
        },
{
    let mut i: usize = pairs.len();
    assert(pair_views(pairs@).take(i as int) =~= pair_views(pairs@));
    while i > 0
        invariant
            i <= pairs.len(),
            lookup(pair_views(pairs@), key@) == lookup(pair_views(pairs@).take(i as int), key@),
        decreases i,
    {
        let ghost t = pair_views(pairs@).take(i as int);
        assert(t.drop_last() =~= pair_views(pairs@).take(i - 1));
        if eq_str(pairs[i - 1].0.as_slice(), key) {
            let v = slice_chars(pairs[i - 1].1.as_slice(), 0, pairs[i - 1].1.len());
            assert(pairs@[i - 1].1@.subrange(0, pairs@[i - 1].1@.len() as int) =~= pairs@[i
                - 1].1@);
            return Some(v);
        }
        i = i - 1;
    }
    None
}

} // verus!
