//! Random identifiers.
use vstd::prelude::*;

verus! {

/// A digit or a letter from `a` to `f`.
pub open spec fn lower_hex(c: char) -> bool {
    ('0' <= c && c <= '9') || ('a' <= c && c <= 'f')
}

/// The hyphenated text of a random (version 4) UUID: five groups of lower-case
/// hexadecimal digits, of which the third starts with the version and the
/// fourth with the variant.
pub open spec fn random_uuid_text(s: Seq<char>) -> bool {
    &&& s.len() == 36
    &&& forall|i: int|
        0 <= i < 36 ==> if i == 8 || i == 13 || i == 18 || i == 23 {
            #[trigger] s[i] == '-'
        } else {
            lower_hex(s[i])
        }
    &&& s[14] == '4'
    &&& s[19] == '8' || s[19] == '9' || s[19] == 'a' || s[19] == 'b'
}

/// `uuid::Uuid::new_v4` and its text. The digits are random; nothing is
/// promised of them beyond the form of the text.
#[verifier::external_body]
pub(crate) fn new_uuid() -> (text: String)
    ensures
        random_uuid_text(text@),
{
    uuid::Uuid::new_v4().to_string()
}

} // verus!
