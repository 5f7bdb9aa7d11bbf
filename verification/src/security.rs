//! Comparison, nonce and wiping helpers for sensitive byte strings.
use vstd::prelude::*;

use crate::hashing::{keccak256, spec_keccak256};

verus! {

/// Compares two byte strings without stopping at the first difference.
pub fn constant_time_eq(a: &[u8], b: &[u8]) -> (r: bool)
    ensures
        r == (a@ == b@),
{
    if a.len() != b.len() {
        return false;
    }
    let mut result: u8 = 0;
    let mut i: usize = 0;
    while i < a.len()
        invariant
            i <= a@.len(),
            a@.len() == b@.len(),
            (result == 0) == (forall|j: int| 0 <= j < i ==> a@[j] == b@[j]),
        decreases a.len() - i,
    {
        let x = a[i];
        let y = b[i];
        let r = result;
        assert(((r | (x ^ y)) == 0) == (r == 0 && x == y)) by (bit_vector);
        result = result | (x ^ y);
        i = i + 1;
    }
    if result == 0 {
        assert(a@ =~= b@);
    }
    result == 0
}

/// A nonce derived from a seed: the Keccak-256 hash of the seed.
pub fn generate_secure_nonce(seed: &[u8]) -> (nonce: [u8; 32])
    ensures
        nonce == spec_keccak256(seed@),
{
    keccak256(seed)
}

/// Overwrites every byte with zero.
pub fn zeroize(data: &mut [u8])
    ensures
        final(data)@ == Seq::new(old(data)@.len(), |i: int| 0u8),
{
    let mut i: usize = 0;
    while i < data.len()
        invariant
            i <= data@.len(),
            data@.len() == old(data)@.len(),
            forall|j: int| 0 <= j < i ==> data@[j] == 0u8,
        decreases data.len() - i,
    {
        data[i] = 0;
        i = i + 1;
    }
    assert(data@ =~= Seq::new(old(data)@.len(), |i: int| 0u8));
}

} // verus!
