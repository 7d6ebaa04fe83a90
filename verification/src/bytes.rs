//! Comparing byte strings of a fixed length.

use vstd::prelude::*;

verus! {

/// Whether `a` and `b` hold the same bytes.
pub fn bytes_equal<const N: usize>(a: &[u8; N], b: &[u8; N]) -> (equal: bool)
    ensures
        equal == (a@ == b@),
{
    let mut i: usize = 0;
    while i < N
        invariant
            i <= N,
            forall|j: int| 0 <= j < i ==> a@[j] == b@[j],
        decreases N - i,
    {
        if a[i] != b[i] {
            return false;
        }
        i += 1;
    }
    assert(a@ =~= b@);
    true
}

} // verus!
