//! Comparison of secret-derived bytes.

use vstd::prelude::*;

verus! {

/// Folding the difference of two bytes into an accumulator leaves it zero
/// exactly when it was zero and the bytes are equal.
proof fn lemma_fold_difference(acc: u8, x: u8, y: u8)
    by (bit_vector)
    ensures
        ((acc | (x ^ y)) == 0) == (acc == 0 && x == y),
{
}

/// Whether `a` and `b` hold the same bytes.
///
/// Buffers of one length are read to the end whatever they hold: the loop has
/// no exit that depends on where they first differ.
pub fn same_bytes(a: &[u8], b: &[u8]) -> (same: bool)
    ensures
        same == (a@ == b@),
{
    if a.len() != b.len() {
        return false;
    }
    let mut difference: u8 = 0;
    let mut i: usize = 0;
    while i < a.len()
        invariant
            i <= a.len(),
            a.len() == b.len(),
            (difference == 0) == (forall|j: int| 0 <= j < i ==> a@[j] == b@[j]),
        decreases a.len() - i,
    {
        proof {
            lemma_fold_difference(difference, a@[i as int], b@[i as int]);
        }
        difference = difference | (a[i] ^ b[i]);
        i = i + 1;
    }
    proof {
        if difference == 0 {
            assert(a@ =~= b@);
        }
    }
    difference == 0
}

} // verus!
