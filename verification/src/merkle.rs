//! Sorted-pair Merkle trees over 32-byte nodes: the tree, its root and inclusion paths.
use vstd::prelude::*;

use crate::cryptography::CryptographyManager;
use crate::errors::BridgeError;
use crate::hashing::spec_keccak256;
use vstd::arithmetic::power2::{lemma2_to64, lemma_pow2_unfold, pow2};

verus! {

/// Lexicographic order on byte strings of equal length (the order of `<=` on byte arrays).
pub open spec fn lex_le(a: Seq<u8>, b: Seq<u8>) -> bool
    decreases a.len(),
{
    if a.len() == 0 || b.len() == 0 {
        true
    } else if a[0] < b[0] {
        true
    } else if a[0] > b[0] {
        false
    } else {
        lex_le(a.drop_first(), b.drop_first())
    }
}

/// The lexicographic order is total and antisymmetric on strings of one length.
pub proof fn lemma_lex_total_antisymmetric(a: Seq<u8>, b: Seq<u8>)
    requires
        a.len() == b.len(),
    ensures
        lex_le(a, b) || lex_le(b, a),
        lex_le(a, b) && lex_le(b, a) ==> a == b,
    decreases a.len(),
{
    if a.len() == 0 {
        assert(a =~= b);
    } else if a[0] == b[0] {
        let ta = a.drop_first();
        let tb = b.drop_first();
        lemma_lex_total_antisymmetric(ta, tb);
        if lex_le(a, b) && lex_le(b, a) {
            assert(ta == tb);
            assert forall|i: int| 0 <= i < a.len() implies a[i] == b[i] by {
                if i > 0 {
                    assert(a[i] == ta[i - 1]);
                    assert(b[i] == tb[i - 1]);
                }
            }
            assert(a =~= b);
        }
    }
}

/// `a <= b` on 32-byte arrays.
pub fn bytes32_le(a: &[u8; 32], b: &[u8; 32]) -> (r: bool)
    ensures
        r == lex_le(a@, b@),
{
    let mut i: usize = 0;
    assert(a@.skip(0) =~= a@);
    assert(b@.skip(0) =~= b@);
    while i < 32
        invariant
            i <= 32,
            a@.len() == 32,
            b@.len() == 32,
            lex_le(a@, b@) == lex_le(a@.skip(i as int), b@.skip(i as int)),
        decreases 32 - i,
    {
        assert(a@.skip(i as int)[0] == a@[i as int]);
        assert(b@.skip(i as int)[0] == b@[i as int]);
        if a[i] < b[i] {
            return true;
        }
        if a[i] > b[i] {
            return false;
        }
        assert(a@.skip(i as int).drop_first() =~= a@.skip(i + 1));
        assert(b@.skip(i as int).drop_first() =~= b@.skip(i + 1));
        i = i + 1;
    }
    assert(a@.skip(32).len() == 0);
    true
}

/// `a == b` on 32-byte arrays.
pub fn bytes32_eq(a: &[u8; 32], b: &[u8; 32]) -> (r: bool)
    ensures
        r == (a@ == b@),
        r == (*a == *b),
{
    let mut i: usize = 0;
    while i < 32
        invariant
            i <= 32,
            a@.len() == 32,
            b@.len() == 32,
            forall|j: int| 0 <= j < i ==> a@[j] == b@[j],
        decreases 32 - i,
    {
        if a[i] != b[i] {
            return false;
        }
        i = i + 1;
    }
    assert(a@ =~= b@);
    assert(*a =~= *b);
    true
}

/// Hash of two nodes, smaller one first.
pub open spec fn spec_hash_pair(a: Seq<u8>, b: Seq<u8>) -> [u8; 32] {
    if lex_le(a, b) {
        spec_keccak256(a + b)
    } else {
        spec_keccak256(b + a)
    }
}

/// Hashing a pair does not depend on the order of the two nodes.
pub proof fn lemma_hash_pair_commutes(a: Seq<u8>, b: Seq<u8>)
    requires
        a.len() == b.len(),
    ensures
        spec_hash_pair(a, b) == spec_hash_pair(b, a),
{
    lemma_lex_total_antisymmetric(a, b);
}

/// Concatenation of two 32-byte arrays.
pub(crate) fn concat32(first: &[u8; 32], second: &[u8; 32]) -> (out: Vec<u8>)
    ensures
        out@ == first@ + second@,
{
    let mut out: Vec<u8> = Vec::with_capacity(64);
    let mut i: usize = 0;
    while i < 32
        invariant
            i <= 32,
            first@.len() == 32,
            out@ == first@.take(i as int),
        decreases 32 - i,
    {
        out.push(first[i]);
        assert(first@.take(i + 1) =~= first@.take(i as int).push(first@[i as int]));
        i = i + 1;
    }
    let mut j: usize = 0;
    while j < 32
        invariant
            j <= 32,
            first@.len() == 32,
            second@.len() == 32,
            out@ == first@ + second@.take(j as int),
        decreases 32 - j,
    {
        out.push(second[j]);
        assert(second@.take(j + 1) =~= second@.take(j as int).push(second@[j as int]));
        assert(first@ + second@.take(j + 1) =~= (first@ + second@.take(j as int)).push(second@[j as int]));
        j = j + 1;
    }
    assert(first@.take(32) =~= first@);
    assert(second@.take(32) =~= second@);
    out
}

/// The node that an inclusion proof arrives at, starting from `cur`.
pub open spec fn fold_proof(cur: Seq<u8>, proof: Seq<Seq<u8>>) -> Seq<u8>
    decreases proof.len(),
{
    if proof.len() == 0 {
        cur
    } else {
        fold_proof(spec_hash_pair(cur, proof[0])@, proof.drop_first())
    }
}

/// The byte strings that a sequence of 32-byte nodes holds.
pub open spec fn node_views(nodes: Seq<[u8; 32]>) -> Seq<Seq<u8>> {
    nodes.map_values(|n: [u8; 32]| n@)
}

/// The byte strings that a sequence of byte vectors holds.
pub open spec fn vec_views(items: Seq<Vec<u8>>) -> Seq<Seq<u8>> {
    items.map_values(|v: Vec<u8>| v@)
}

/// Every node of the sequence is 32 bytes long.
pub open spec fn all_len_32(level: Seq<Seq<u8>>) -> bool {
    forall|i: int| 0 <= i < level.len() ==> (#[trigger] level[i]).len() == 32
}

/// The parent level of a level of a Merkle tree; an odd last node is paired with itself.
pub open spec fn next_level(level: Seq<Seq<u8>>) -> Seq<Seq<u8>> {
    Seq::new(
        ((level.len() + 1) / 2) as nat,
        |k: int|
            if 2 * k + 1 < level.len() {
                spec_hash_pair(level[2 * k], level[2 * k + 1])@
            } else {
                spec_hash_pair(level[2 * k], level[2 * k])@
            },
    )
}

/// The root of the Merkle tree over a non-empty level of nodes.
pub open spec fn merkle_root(level: Seq<Seq<u8>>) -> Seq<u8>
    decreases level.len(),
{
    if level.len() <= 1 {
        level[0]
    } else {
        merkle_root(next_level(level))
    }
}

/// The sibling that the proof for node `idx` holds at this level.
pub open spec fn sibling(level: Seq<Seq<u8>>, idx: int) -> Seq<u8> {
    if idx % 2 == 0 {
        if idx + 1 < level.len() {
            level[idx + 1]
        } else {
            level[idx]
        }
    } else {
        level[idx - 1]
    }
}

/// The inclusion proof of node `idx`: its sibling at each level from the leaves up.
pub open spec fn merkle_path(level: Seq<Seq<u8>>, idx: int) -> Seq<Seq<u8>>
    decreases level.len(),
{
    if level.len() <= 1 {
        Seq::empty()
    } else {
        seq![sibling(level, idx)] + merkle_path(next_level(level), idx / 2)
    }
}

/// Every node of a parent level is 32 bytes long.
pub proof fn lemma_next_level_len_32(level: Seq<Seq<u8>>)
    ensures
        all_len_32(next_level(level)),
{
}

/// Inclusion: folding the proof of node `idx` over that node gives the root of the tree.
pub proof fn lemma_merkle_inclusion(level: Seq<Seq<u8>>, idx: int)
    requires
        0 <= idx < level.len(),
        all_len_32(level),
    ensures
        fold_proof(level[idx], merkle_path(level, idx)) == merkle_root(level),
    decreases level.len(),
{
    if level.len() > 1 {
        let next = next_level(level);
        let sib = sibling(level, idx);
        let path = merkle_path(level, idx);
        assert(path[0] == sib);
        assert(path.drop_first() =~= merkle_path(next, idx / 2));
        let k = idx / 2;
        if idx % 2 == 1 {
            assert(level[idx].len() == 32 && level[idx - 1].len() == 32);
            lemma_hash_pair_commutes(level[idx], level[idx - 1]);
            assert(2 * k == idx - 1);
        }
        assert(spec_hash_pair(level[idx], sib)@ == next[k]);
        lemma_next_level_len_32(level);
        lemma_merkle_inclusion(next, k);
    }
}

/// The 32 bytes of a node as a vector.
pub(crate) fn array_to_vec(a: &[u8; 32]) -> (out: Vec<u8>)
    ensures
        out@ == a@,
{
    let mut out: Vec<u8> = Vec::with_capacity(32);
    let mut i: usize = 0;
    while i < 32
        invariant
            i <= 32,
            a@.len() == 32,
            out@ == a@.take(i as int),
        decreases 32 - i,
    {
        out.push(a[i]);
        assert(a@.take(i + 1) =~= a@.take(i as int).push(a@[i as int]));
        i = i + 1;
    }
    assert(a@.take(32) =~= a@);
    out
}

/// A copy of a slice of nodes.
pub(crate) fn copy_nodes(nodes: &[[u8; 32]]) -> (out: Vec<[u8; 32]>)
    ensures
        out@ == nodes@,
{
    let mut out: Vec<[u8; 32]> = Vec::with_capacity(nodes.len());
    let mut i: usize = 0;
    while i < nodes.len()
        invariant
            i <= nodes@.len(),
            out@ == nodes@.take(i as int),
        decreases nodes.len() - i,
    {
        out.push(nodes[i]);
        assert(nodes@.take(i + 1) =~= nodes@.take(i as int).push(nodes@[i as int]));
        i = i + 1;
    }
    assert(nodes@.take(nodes@.len() as int) =~= nodes@);
    out
}

/// Views of the sibling nodes that a proof collects.
pub(crate) fn collect_views(nodes: &Vec<[u8; 32]>) -> (out: Vec<Vec<u8>>)
    ensures
        vec_views(out@) == node_views(nodes@),
{
    let mut out: Vec<Vec<u8>> = Vec::new();
    let mut i: usize = 0;
    while i < nodes.len()
        invariant
            i <= nodes.len(),
            out@.len() == i,
            forall|j: int| 0 <= j < i ==> (#[trigger] out@[j])@ == nodes@[j]@,
        decreases nodes.len() - i,
    {
        out.push(array_to_vec(&nodes[i]));
        i = i + 1;
    }
    assert(vec_views(out@) =~= node_views(nodes@));
    out
}

/// The parent level of a level of 32-byte nodes.
pub fn build_next_level(level: &Vec<[u8; 32]>) -> (next: Vec<[u8; 32]>)
    ensures
        node_views(next@) == next_level(node_views(level@)),
        next@.len() == (level@.len() + 1) / 2,
{
    let ghost lv = node_views(level@);
    let mut next: Vec<[u8; 32]> = Vec::new();
    let n = level.len();
    let half = n / 2 + n % 2;
    let mut k: usize = 0;
    while k < half
        invariant
            lv == node_views(level@),
            n == level@.len(),
            half == (n + 1) / 2,
            next@.len() == k,
            k <= half,
            forall|j: int| 0 <= j < k ==> (#[trigger] next@[j])@ == next_level(lv)[j],
        decreases half - k,
    {
        let h = if 2 * k + 1 < level.len() {
            CryptographyManager::hash_pair(&level[2 * k], &level[2 * k + 1])
        } else {
            CryptographyManager::hash_pair(&level[2 * k], &level[2 * k])
        };
        next.push(h);
        k = k + 1;
    }
    assert(node_views(next@) =~= next_level(lv));
    next
}

/// Position of the first node equal to `target`.
pub(crate) fn position_of(target: &[u8; 32], nodes: &[[u8; 32]]) -> (res: Option<usize>)
    ensures
        res matches Some(i) ==> i < nodes@.len() && nodes@[i as int]@ == target@ && forall|j: int|
            0 <= j < i ==> nodes@[j]@ != target@,
        res is None ==> forall|j: int| 0 <= j < nodes@.len() ==> nodes@[j]@ != target@,
{
    let mut i: usize = 0;
    while i < nodes.len()
        invariant
            i <= nodes@.len(),
            forall|j: int| 0 <= j < i ==> nodes@[j]@ != target@,
        decreases nodes.len() - i,
    {
        if bytes32_eq(&nodes[i], target) {
            return Some(i);
        }
        i = i + 1;
    }
    None
}

/// Proofs whose every element is 32 bytes long; the others are refused.
pub open spec fn proof_well_formed(proof: Seq<Seq<u8>>) -> bool {
    all_len_32(proof)
}

/// The index of the first node equal to `target`, if any.
pub open spec fn first_index_of(nodes: Seq<Seq<u8>>, target: Seq<u8>) -> int {
    choose|i: int|
        0 <= i < nodes.len() && nodes[i] == target && forall|j: int|
            0 <= j < i ==> nodes[j] != target
}


/// Every node on the inclusion path of a node of a level of 32-byte nodes is 32 bytes long.
pub proof fn lemma_merkle_path_well_formed(level: Seq<Seq<u8>>, idx: int)
    requires
        0 <= idx < level.len(),
        all_len_32(level),
    ensures
        proof_well_formed(merkle_path(level, idx)),
    decreases level.len(),
{
    if level.len() > 1 {
        lemma_next_level_len_32(level);
        lemma_merkle_path_well_formed(next_level(level), idx / 2);
        let path = merkle_path(level, idx);
        let rest = merkle_path(next_level(level), idx / 2);
        assert forall|i: int| 0 <= i < path.len() implies (#[trigger] path[i]).len() == 32 by {
            if i > 0 {
                assert(path[i] == rest[i - 1]);
            }
        }
    }
}

/// A proof generated for any leaf of a tree of 32-byte leaves is well formed and leads from
/// that leaf to the root built from the same leaves, so it verifies.
pub proof fn law_generated_proof_verifies(leaves: Seq<Seq<u8>>, idx: int)
    requires
        0 <= idx < leaves.len(),
        all_len_32(leaves),
    ensures
        proof_well_formed(merkle_path(leaves, idx)),
        fold_proof(leaves[idx], merkle_path(leaves, idx)) == merkle_root(leaves),
{
    lemma_merkle_path_well_formed(leaves, idx);
    lemma_merkle_inclusion(leaves, idx);
}

/// What checking `proof` from `leaf` against `root` gives: an empty proof holds when the leaf
/// is the root, a proof with an element that is not 32 bytes long is refused, and otherwise the
/// proof holds when folding it over the leaf arrives at the root.
pub open spec fn merkle_verdict(leaf: Seq<u8>, proof: Seq<Seq<u8>>, root: Seq<u8>) -> Result<bool, BridgeError> {
    if proof.len() == 0 {
        Ok(leaf == root)
    } else if !proof_well_formed(proof) {
        Err(BridgeError::InvalidProofElement)
    } else {
        Ok(fold_proof(leaf, proof) == root)
    }
}

/// The number of levels above `n` leaves: the least `d` with `n <= 2^d`.
pub open spec fn tree_depth(n: nat) -> nat
    decreases n,
{
    if n <= 1 {
        0
    } else {
        1 + tree_depth(((n + 1) / 2) as nat)
    }
}

/// The depth of a tree over `n >= 1` leaves is the ceiling of `log2 n`.
pub proof fn lemma_tree_depth_is_ceil_log2(n: nat)
    requires
        n >= 1,
    ensures
        n <= pow2(tree_depth(n)),
        n > 1 ==> pow2((tree_depth(n) - 1) as nat) < n,
    decreases n,
{
    lemma2_to64();
    if n > 1 {
        let m = ((n + 1) / 2) as nat;
        lemma_tree_depth_is_ceil_log2(m);
        let d = tree_depth(n);
        assert(d == 1 + tree_depth(m));
        lemma_pow2_unfold(d);
        assert(pow2((d - 1) as nat) == pow2(tree_depth(m)));
        if m > 1 {
            lemma_pow2_unfold(tree_depth(m));
        }
    }
}

/// An inclusion path has one sibling per level above the leaves.
pub proof fn lemma_merkle_path_len(level: Seq<Seq<u8>>, idx: int)
    ensures
        merkle_path(level, idx).len() == tree_depth(level.len()),
    decreases level.len(),
{
    if level.len() > 1 {
        lemma_merkle_path_len(next_level(level), idx / 2);
    }
}

/// Where `target` occurs among `nodes`, its first occurrence is a position holding it.
pub proof fn lemma_first_index_of(nodes: Seq<Seq<u8>>, target: Seq<u8>, j: int)
    requires
        0 <= j < nodes.len(),
        nodes[j] == target,
    ensures
        0 <= first_index_of(nodes, target) < nodes.len(),
        nodes[first_index_of(nodes, target)] == target,
    decreases j,
{
    if exists|k: int| 0 <= k < j && nodes[k] == target {
        let k = choose|k: int| 0 <= k < j && nodes[k] == target;
        lemma_first_index_of(nodes, target, k);
    } else {
        assert(forall|k: int| 0 <= k < j ==> nodes[k] != target);
    }
}

/// Round trip of inclusion proofs: for a list of leaves that holds `t`, the proof generated
/// for `t` (that of its first occurrence) is well formed, has `ceil(log2 n)` elements for `n`
/// leaves, and checking it from `t` against the root built from the same leaves succeeds.
pub proof fn law_merkle_round_trip(leaves: Seq<[u8; 32]>, t: [u8; 32])
    requires
        leaves.contains(t),
    ensures
        ({
            let lv = node_views(leaves);
            let p = merkle_path(lv, first_index_of(lv, t@));
            &&& merkle_verdict(t@, p, merkle_root(lv)) == Ok::<bool, BridgeError>(true)
            &&& proof_well_formed(p)
            &&& p.len() == tree_depth(leaves.len())
            &&& leaves.len() <= pow2(p.len())
            &&& leaves.len() > 1 ==> pow2((p.len() - 1) as nat) < leaves.len()
        }),
{
    let lv = node_views(leaves);
    let j = choose|j: int| 0 <= j < leaves.len() && leaves[j] == t;
    assert(lv[j] == t@);
    lemma_first_index_of(lv, t@, j);
    let c = first_index_of(lv, t@);
    assert(all_len_32(lv));
    law_generated_proof_verifies(lv, c);
    lemma_merkle_path_len(lv, c);
    lemma_tree_depth_is_ceil_log2(leaves.len());
}

} // verus!
