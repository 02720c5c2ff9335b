//! Comparing a tag with the expected one.

use vstd::prelude::*;

verus! {

/// Whether `a` and `b` hold the same bytes.
///
/// Every byte of two strings of one length is looked at, whatever the bytes
/// before it were, so the time taken tells nothing of where they differ.
/// Only their lengths, which are public, can end the comparison early.
pub fn constant_time_eq(a: &[u8], b: &[u8]) -> (same: bool)
    ensures
        same == (a@ == b@),
{
    if a.len() != b.len() {
        return false;
    }
    let mut diff: u8 = 0;
    for i in 0..a.len()
        invariant
            a@.len() == b@.len(),
            diff == 0 <==> forall|j: int| 0 <= j < i ==> a@[j] == b@[j],
    {
        let x: u8 = a[i];
        let y: u8 = b[i];
        assert((diff | (x ^ y)) == 0 <==> diff == 0 && x == y) by (bit_vector);
        diff |= x ^ y;
    }
    proof {
        if diff == 0 {
            assert(a@ =~= b@);
        }
    }
    diff == 0
}

} // verus!
