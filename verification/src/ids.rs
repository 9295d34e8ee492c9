//! Fresh ids for macros, strands and instructions.

use vstd::prelude::*;

verus! {

/// A lowercase hexadecimal digit.
pub open spec fn is_lower_hex(c: char) -> bool {
    ('0' <= c && c <= '9') || ('a' <= c && c <= 'f')
}

/// The form every fresh id has: 32 lowercase hexadecimal digits.
pub open spec fn is_fresh_id(s: Seq<char>) -> bool {
    s.len() == 32 && forall|i: int| 0 <= i < 32 ==> is_lower_hex(#[trigger] s[i])
}

/// `uuid::Uuid::new_v4().simple().to_string()`: a random version-4 UUID in
/// its simple form. Which id comes out is chance; what always holds is its
/// form, which uuid's `Simple` formatter writes as 32 lowercase hex digits.
#[verifier::external_body]
pub(crate) fn new_id() -> (r: String)
    ensures
        is_fresh_id(r@),
{
    uuid::Uuid::new_v4().simple().to_string()
}

} // verus!
