//! Fresh identifiers.
use vstd::prelude::*;

verus! {

/// A lowercase hexadecimal digit.
pub open spec fn is_lower_hex_digit(c: char) -> bool {
    ('0' <= c && c <= '9') || ('a' <= c && c <= 'f')
}

/// The text of a hyphenated UUID: 36 characters, hyphens at positions 8, 13,
/// 18 and 23, lowercase hexadecimal digits everywhere else.
pub open spec fn is_uuid_text(s: Seq<char>) -> bool {
    &&& s.len() == 36
    &&& forall|i: int|
        0 <= i < 36 ==> if i == 8 || i == 13 || i == 18 || i == 23 {
            #[trigger] s[i] == '-'
        } else {
            is_lower_hex_digit(s[i])
        }
}

/// Calls `uuid::Uuid::new_v4` and renders the value with `to_string`.
///
/// Trusted: the value is random, so only its shape is stated: the hyphenated
/// lowercase form that `Uuid`'s `Display` implementation writes.
#[verifier::external_body]
pub(crate) fn new_uuid_v4_string() -> (s: String)
    ensures
        is_uuid_text(s@),
{
    uuid::Uuid::new_v4().to_string()
}

} // verus!
