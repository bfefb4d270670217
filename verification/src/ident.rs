//! Fresh identifiers for sessions and stored records.

use vstd::prelude::*;

verus! {

/// A decimal digit or one of the letters `a` to `f`.
pub open spec fn is_lower_hex(c: char) -> bool {
    ('0' <= c <= '9') || ('a' <= c <= 'f')
}

/// What stands at place `i` of an identifier: a hyphen at the places 8, 13,
/// 18 and 23, a lower-case hexadecimal digit elsewhere.
pub open spec fn fits_identifier_at(i: int, c: char) -> bool {
    if i == 8 || i == 13 || i == 18 || i == 23 {
        c == '-'
    } else {
        is_lower_hex(c)
    }
}

/// The shape of an identifier: 36 characters, which are 32 lower-case
/// hexadecimal digits in groups of 8, 4, 4, 4 and 12 with a hyphen between
/// the groups.
pub open spec fn is_identifier(s: Seq<char>) -> bool {
    &&& s.len() == 36
    &&& forall|i: int| 0 <= i < 36 ==> fits_identifier_at(i, #[trigger] s[i])
}

/// A fresh random identifier.
///
/// Trusted: the body asks the `uuid` crate for a random (version 4) UUID with
/// `Uuid::new_v4` and renders it with its `Display`, which is the hyphenated
/// lower-case form. The contract claims that shape and no more: which
/// identifier comes back is left open, so two calls may or may not differ.
/// `new_v4` panics if the operating system cannot supply random bytes.
#[verifier::external_body]
pub(crate) fn fresh_identifier() -> (id: String)
    ensures
        is_identifier(id@),
{
    uuid::Uuid::new_v4().to_string()
}

} // verus!
