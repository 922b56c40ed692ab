//! The daemon's bearer-token check.
use vstd::prelude::*;
use vstd::utf8::{decode_utf8, encode_utf8, encode_utf8_decode_utf8};

use crate::text::{chars_of, eq_str, slice_chars, string_of};

verus! {

/// Compares two byte strings in time that does not depend on where they
/// differ (`constant_time_eq::constant_time_eq`); true exactly when they are
/// equal, strings of different lengths included.
#[verifier::external_body]
fn bytes_equal(a: &[u8], b: &[u8]) -> (r: bool)
    ensures
        r == (a@ == b@),
{
    constant_time_eq::constant_time_eq(a, b)
}

/// The index of the first space in `s` at or after `i`, if there is one.
pub open spec fn space_from(s: Seq<char>, i: int) -> Option<int>
    decreases s.len() - i,
{
    if i < 0 || i >= s.len() {
        None
    } else if s[i] == ' ' {
        Some(i)
    } else {
        space_from(s, i + 1)
    }
}

/// The index of the first space in `s`, if there is one.
pub open spec fn first_space(s: Seq<char>) -> Option<int> {
    space_from(s, 0)
}

proof fn lemma_space_from(s: Seq<char>, i: int)
    requires
        0 <= i <= s.len(),
    ensures
        match space_from(s, i) {
            Some(k) => i <= k < s.len() && s[k] == ' ' && forall|j: int| i <= j < k ==> s[j] != ' ',
            None => forall|j: int| i <= j < s.len() ==> s[j] != ' ',
        },
    decreases s.len() - i,
{
    if i < s.len() && s[i] != ' ' {
        lemma_space_from(s, i + 1);
    }
}

proof fn lemma_space_from_skips(s: Seq<char>, i: int, k: int)
    requires
        0 <= i <= k <= s.len(),
        forall|j: int| i <= j < k ==> s[j] != ' ',
    ensures
        space_from(s, i) == space_from(s, k),
    decreases k - i,
{
    if i < k {
        lemma_space_from_skips(s, i + 1, k);
    }
}

/// A header is accepted when the text before its first space is `Bearer`
/// and the text after it is the expected token.
pub open spec fn bearer_accepts(header: Seq<char>, expected: Seq<char>) -> bool {
    match first_space(header) {
        None => false,
        Some(i) => header.take(i) == "Bearer"@ && header.skip(i + 1) == expected,
    }
}

/// Checks an `Authorization` header against the node's token.
pub fn validate_bearer_header(header: &str, expected_token: &str) -> (ok: bool)
    ensures
        ok == bearer_accepts(header@, expected_token@),
{
    let h = chars_of(header);
    let mut i: usize = 0;
    while i < h.len() && h[i] != ' '
        invariant
            i <= h.len(),
            h@ == header@,
            forall|j: int| 0 <= j < i ==> h@[j] != ' ',
        decreases h.len() - i,
    {
        i = i + 1;
    }
    proof {
        lemma_space_from_skips(h@, 0, i as int);
    }
    if i == h.len() {
        return false;
    }
    let typ = slice_chars(h.as_slice(), 0, i);
    if !eq_str(typ.as_slice(), "Bearer") {
        assert(h@.take(i as int) =~= h@.subrange(0, i as int));
        return false;
    }
    let token = string_of(&slice_chars(h.as_slice(), i + 1, h.len()));
    let same = bytes_equal(token.as_str().as_bytes(), expected_token.as_bytes());
    proof {
        assert(h@.take(i as int) =~= h@.subrange(0, i as int));
        assert(h@.skip(i + 1) =~= h@.subrange(i + 1, h@.len() as int));
        encode_utf8_decode_utf8(token@);
        encode_utf8_decode_utf8(expected_token@);
        assert(same == (token@ == expected_token@));
    }
    same
}

/// A header is accepted exactly when it is `Bearer`, one space, and the token.
pub proof fn lemma_bearer_accepts_iff(header: Seq<char>, expected: Seq<char>)
    ensures
        bearer_accepts(header, expected) <==> header == "Bearer "@ + expected,
{
    reveal_strlit("Bearer");
    reveal_strlit("Bearer ");
    if header == "Bearer "@ + expected {
        lemma_space_from_skips(header, 0, 6);
        assert(header.take(6) =~= "Bearer"@);
        assert(header.skip(7) =~= expected);
    }
    if bearer_accepts(header, expected) {
        lemma_space_from(header, 0);
        let i = first_space(header)->0;
        assert(header.take(i).len() == 6);
        assert(header[i] == ' ');
        assert(header =~= "Bearer "@ + expected) by {
            assert forall|j: int| 0 <= j < header.len() implies header[j] == ("Bearer "@
                + expected)[j] by {
                if j < 6 {
                    assert(header[j] == header.take(i)[j]);
                } else if j > 6 {
                    assert(header[j] == header.skip(i + 1)[j - 7]);
                }
            }
        }
    }
}

} // verus!
