//! Fresh identifiers.
use vstd::prelude::*;

verus! {

pub open spec fn is_lower_hex(c: char) -> bool {
    ('0' <= c && c <= '9') || ('a' <= c && c <= 'f')
}

/// uuid's hyphenated text form: 36 characters, `-` at positions 8, 13, 18
/// and 23, lowercase hexadecimal digits elsewhere.
pub open spec fn is_hyphenated_uuid(s: Seq<char>) -> bool {
    &&& s.len() == 36
    &&& forall|i: int|
        0 <= i < 36 ==> if i == 8 || i == 13 || i == 18 || i == 23 {
            #[trigger] s[i] == '-'
        } else {
            is_lower_hex(s[i])
        }
}

/// uuid's simple text form: 32 lowercase hexadecimal digits.
pub open spec fn is_simple_uuid(s: Seq<char>) -> bool {
    s.len() == 32 && forall|i: int| 0 <= i < 32 ==> is_lower_hex(#[trigger] s[i])
}

/// A fresh random identifier (`uuid::Uuid::new_v4().to_string()`). Of its
/// text only its form is stated: `Display` writes the hyphenated lowercase
/// form; which digits come out is left to the random source.
#[verifier::external_body]
pub(crate) fn new_uuid() -> (id: String)
    ensures
        is_hyphenated_uuid(id@),
{
    uuid::Uuid::new_v4().to_string()
}

/// A fresh random identifier in uuid's simple form
/// (`uuid::Uuid::new_v4().simple().to_string()`): 32 lowercase hexadecimal
/// digits; which ones is left to the random source.
#[verifier::external_body]
pub(crate) fn new_uuid_simple() -> (id: String)
    ensures
        is_simple_uuid(id@),
{
    uuid::Uuid::new_v4().simple().to_string()
}

} // verus!
