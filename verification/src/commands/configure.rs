//! `featherfly configure`: the panel address and token a node is given.
use vstd::prelude::*;

use crate::text::{
    chars_of, string_of, strip_end, trim, trim_chars, trim_end_char, CharClass,
};

verus! {

pub struct ConfigureArgs {
    pub panel_url: String,
    pub token: String,
}

pub struct ConfigureCommand;

/// The panel address as it is stored: trimmed, without trailing slashes.
pub open spec fn stored_remote(url: Seq<char>) -> Seq<char> {
    strip_end(trim(url), CharClass::Exactly('/'))
}

pub fn normalize_remote_url(url: &str) -> (r: String)
    ensures
        r@ == stored_remote(url@),
{
    let t = trim_chars(chars_of(url).as_slice());
    let s = trim_end_char(t.as_slice(), '/');
    string_of(&s)
}

} // verus!
