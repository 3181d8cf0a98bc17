//! Small text helpers shared by the verified code.

use vstd::prelude::*;

verus! {

/// Relies on `str`'s `PartialEq`: two texts are equal exactly when their
/// character sequences are.
#[verifier::external_body]
pub fn str_eq(a: &str, b: &str) -> (r: bool)
    ensures
        r == (a@ == b@),
{
    a == b
}

} // verus!
