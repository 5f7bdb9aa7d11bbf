//! Keccak-256 digests and the little-endian byte encodings that hashed messages are made of.
use vstd::prelude::*;

verus! {

/// The Keccak-256 digest of a byte string, as computed by `solana_program::keccak`.
pub uninterp spec fn spec_keccak256(data: Seq<u8>) -> [u8; 32];

/// Calls `solana_program::keccak::hash`; the digest is the named Keccak-256 result of the
/// input bytes (a function of the bytes alone).
#[verifier::external_body]
pub(crate) fn keccak256(data: &[u8]) -> (digest: [u8; 32])
    ensures
        digest == spec_keccak256(data@),
{
    solana_program::keccak::hash(data).to_bytes()
}

/// The SHA-256 digest of a byte string, as computed by `solana_program::hash`.
pub uninterp spec fn spec_sha256(data: Seq<u8>) -> [u8; 32];

/// Calls `solana_program::hash::hashv` on two parts; the crate feeds the parts to one SHA-256
/// hasher in order, so the digest is the named SHA-256 result of their concatenation.
#[verifier::external_body]
pub(crate) fn sha256_of_parts(first: &[u8], second: &[u8]) -> (digest: [u8; 32])
    ensures
        digest == spec_sha256(first@ + second@),
{
    solana_program::hash::hashv(&[first, second]).to_bytes()
}

/// The `n` low-order bytes of `x`, least significant first (`to_le_bytes` for `n` of 1, 2, 4
/// or 8; a `u32` or an `i64` is taken by its `u64` value of the same bits).
pub open spec fn le_bytes(x: u64, n: nat) -> Seq<u8> {
    Seq::new(n, |i: int| (x >> ((8 * i) as u64)) as u8)
}

/// Appends the `n` low-order bytes of `x`, least significant first.
pub fn push_le_bytes(out: &mut Vec<u8>, x: u64, n: u64)
    requires
        n <= 8,
    ensures
        final(out)@ == old(out)@ + le_bytes(x, n as nat),
{
    let ghost start = out@;
    let mut i: u64 = 0;
    while i < n
        invariant
            i <= n <= 8,
            out@ == start + le_bytes(x, i as nat),
        decreases n - i,
    {
        let b = (x >> (8 * i)) as u8;
        out.push(b);
        assert(le_bytes(x, (i + 1) as nat) =~= le_bytes(x, i as nat).push(b));
        assert(start + le_bytes(x, (i + 1) as nat) =~= (start + le_bytes(x, i as nat)).push(b));
        i = i + 1;
    }
}

/// Appends the bytes of `data`.
pub fn append_bytes(out: &mut Vec<u8>, data: &[u8])
    ensures
        final(out)@ == old(out)@ + data@,
{
    let ghost start = out@;
    let mut i: usize = 0;
    while i < data.len()
        invariant
            i <= data@.len(),
            out@ == start + data@.take(i as int),
        decreases data.len() - i,
    {
        out.push(data[i]);
        assert(start + data@.take(i + 1) =~= (start + data@.take(i as int)).push(data@[i as int]));
        i = i + 1;
    }
    assert(data@.take(data@.len() as int) =~= data@);
}

} // verus!
