//! Cross-chain proofs: Merkle inclusion, validator signatures, message hashes and the checks
//! on cryptographic parameters.
use vstd::prelude::*;

use crate::errors::BridgeError;
use crate::hashing::{append_bytes, keccak256, le_bytes, push_le_bytes, spec_keccak256};
use crate::merkle::{
    all_len_32, collect_views, concat32, copy_nodes, first_index_of, fold_proof, lex_le,
    merkle_path, merkle_root, merkle_verdict, next_level, node_views, position_of, proof_well_formed, sibling, vec_views,
    bytes32_eq, bytes32_le, build_next_level, spec_hash_pair,
};

verus! {


/// The public key that `solana_program::secp256k1_recover::secp256k1_recover` recovers from a
/// message hash, a recovery id and a signature, or `None` where it fails.
pub uninterp spec fn spec_secp256k1_recover(hash: Seq<u8>, recovery_id: u8, signature: Seq<u8>) -> Option<Seq<u8>>;

/// The bytes of a recovered key, if any.
pub open spec fn key_view(key: Option<[u8; 64]>) -> Option<Seq<u8>> {
    match key {
        Some(k) => Some(k@),
        None => None,
    }
}

/// Calls `solana_program::secp256k1_recover::secp256k1_recover` and keeps the 64 key bytes on
/// success. The outcome is the named result of the three arguments (off-chain the crate computes
/// it with libsecp256k1, on-chain with a syscall); a recovery id of 4 or more is refused by
/// the crate before any curve arithmetic.
#[verifier::external_body]
fn secp256k1_recover_key(hash: &[u8; 32], recovery_id: u8, signature: &[u8; 64]) -> (key: Option<[u8; 64]>)
    ensures
        key_view(key) == spec_secp256k1_recover(hash@, recovery_id, signature@),
        recovery_id >= 4 ==> key is None,
{
    match solana_program::secp256k1_recover::secp256k1_recover(hash, recovery_id, signature) {
        Ok(pubkey) => Some(pubkey.to_bytes()),
        Err(_) => None,
    }
}

/// A validator's signature over a cross-chain message.
#[derive(Clone, Debug)]
pub struct ValidatorSignature {
    pub validator_pubkey: Vec<u8>,
    pub signature: [u8; 64],
    pub recovery_id: u8,
    pub timestamp: i64,
}

/// A transfer between two chains, as the source chain records it.
#[derive(Clone, Copy, Debug)]
pub struct CrossChainTransaction {
    pub source_chain: u32,
    pub destination_chain: u32,
    pub token_address: [u8; 32],
    pub recipient: [u8; 32],
    pub amount: u64,
    pub nonce: u64,
    pub timestamp: i64,
}

/// An event observed on another chain.
#[derive(Clone, Debug)]
pub struct CrossChainEvent {
    pub event_type: u32,
    pub chain_id: u32,
    pub block_height: u64,
    pub transaction_hash: [u8; 32],
    pub timestamp: i64,
    pub data: Vec<u8>,
}

/// A validator's signature over an event.
#[derive(Clone, Copy, Debug)]
pub struct EventSignature {
    pub signature: [u8; 64],
    pub recovery_id: u8,
    pub validator_index: u8,
}

/// A message carried by a relayer.
#[derive(Clone, Debug)]
pub struct RelayMessage {
    pub source_chain: u32,
    pub destination_chain: u32,
    pub nonce: u64,
    pub sender: [u8; 32],
    pub recipient: [u8; 32],
    pub payload: Vec<u8>,
    pub timestamp: i64,
}

/// A relayer's proof that it carried a message.
#[derive(Clone, Copy, Debug)]
pub struct RelayProof {
    pub relayer_pubkey: [u8; 32],
    pub signature: [u8; 64],
    pub recovery_id: u8,
    pub block_height: u64,
}

/// Length of a signature in bytes.
pub const SIGNATURE_LENGTH: usize = 64;
/// Length of a hash in bytes.
pub const HASH_LENGTH: usize = 32;
/// Length of an uncompressed secp256k1 public key in bytes.
pub const PUBKEY_LENGTH: usize = 64;
/// Deepest Merkle proof accepted.
pub const MAX_MERKLE_DEPTH: usize = 32;
/// Smallest validator threshold, in percent.
pub const MIN_VALIDATOR_THRESHOLD: u8 = 51;
/// Most elements of a proof.
pub const MAX_PROOF_ELEMENTS: usize = 32;
/// Largest input to a cryptographic operation, in bytes.
pub const MAX_CRYPTO_INPUT_LEN: usize = 1048576;

/// What checking one signature against an expected key gives, for the key recovered from it.
pub open spec fn recovered_key_outcome(recovered: Option<Seq<u8>>, expected: Seq<u8>) -> Result<bool, BridgeError> {
    match recovered {
        Some(k) => Ok(k == expected),
        None => Err(BridgeError::InvalidSignature),
    }
}

/// What checking `signature` over `message_hash` against `expected` gives.
pub open spec fn signature_outcome(
    message_hash: Seq<u8>,
    signature: Seq<u8>,
    recovery_id: u8,
    expected: Seq<u8>,
) -> Result<bool, BridgeError> {
    recovered_key_outcome(spec_secp256k1_recover(message_hash, recovery_id, signature), expected)
}

/// `count + 1`, held at 255.
pub open spec fn saturating_inc(count: u8) -> u8 {
    if count == 255 { 255 } else { (count + 1) as u8 }
}

/// Counting the valid signatures of `sigs`, in order: a key that already counted is skipped,
/// the first signature that cannot be recovered ends the count with its error. The result holds
/// the count and the keys that counted.
pub open spec fn tally_signatures(message_hash: Seq<u8>, sigs: Seq<ValidatorSignature>) -> Result<(u8, Set<Seq<u8>>), BridgeError>
    decreases sigs.len(),
{
    if sigs.len() == 0 {
        Ok((0u8, Set::empty()))
    } else {
        match tally_signatures(message_hash, sigs.drop_last()) {
            Err(e) => Err(e),
            Ok((count, used)) => {
                let s = sigs.last();
                if used.contains(s.validator_pubkey@) {
                    Ok((count, used))
                } else {
                    match signature_outcome(message_hash, s.signature@, s.recovery_id, s.validator_pubkey@) {
                        Err(e) => Err(e),
                        Ok(false) => Ok((count, used)),
                        Ok(true) => Ok((saturating_inc(count), used.insert(s.validator_pubkey@))),
                    }
                }
            },
        }
    }
}

/// Once counting the signatures has failed, more signatures do not change the outcome.
pub proof fn lemma_tally_error_persists(message_hash: Seq<u8>, sigs: Seq<ValidatorSignature>, n: int)
    requires
        0 <= n <= sigs.len(),
        tally_signatures(message_hash, sigs.take(n)) is Err,
    ensures
        tally_signatures(message_hash, sigs) == tally_signatures(message_hash, sigs.take(n)),
    decreases sigs.len() - n,
{
    if n < sigs.len() {
        assert(sigs.take(n + 1).drop_last() =~= sigs.take(n));
        lemma_tally_error_persists(message_hash, sigs, n + 1);
    } else {
        assert(sigs.take(n) =~= sigs);
    }
}

/// The bytes hashed to identify a cross-chain transaction.
pub open spec fn transaction_message(
    source_chain: u32,
    destination_chain: u32,
    token_address: Seq<u8>,
    recipient: Seq<u8>,
    amount: u64,
    nonce: u64,
    timestamp: i64,
) -> Seq<u8> {
    le_bytes(source_chain as u64, 4) + le_bytes(destination_chain as u64, 4) + token_address
        + recipient + le_bytes(amount, 8) + le_bytes(nonce, 8) + le_bytes(timestamp as u64, 8)
}

/// The leaf of a transaction in a batch's Merkle tree.
pub open spec fn transaction_leaf(tx: CrossChainTransaction) -> Seq<u8> {
    spec_keccak256(
        transaction_message(
            tx.source_chain,
            tx.destination_chain,
            tx.token_address@,
            tx.recipient@,
            tx.amount,
            tx.nonce,
            tx.timestamp,
        ),
    )@
}

/// The bytes hashed to identify an event.
pub open spec fn event_message(event: CrossChainEvent) -> Seq<u8> {
    le_bytes(event.event_type as u64, 4) + le_bytes(event.chain_id as u64, 4) + le_bytes(
        event.block_height,
        8,
    ) + event.transaction_hash@ + le_bytes(event.timestamp as u64, 8) + event.data@
}

/// The bytes hashed to identify a relayed message.
pub open spec fn relay_message_bytes(message: RelayMessage) -> Seq<u8> {
    le_bytes(message.source_chain as u64, 4) + le_bytes(message.destination_chain as u64, 4)
        + le_bytes(message.nonce, 8) + message.sender@ + message.recipient@ + message.payload@
        + le_bytes(message.timestamp as u64, 8)
}

/// A relayer's 32-byte key padded with zeros to the 64 bytes of a recovered key.
pub open spec fn padded_relayer_key(relayer: Seq<u8>) -> Seq<u8> {
    relayer + Seq::new(32, |i: int| 0u8)
}

/// Signatures needed out of `total_validators` at `threshold_percentage` percent.
pub open spec fn required_signatures(total_validators: u8, threshold_percentage: u8) -> int {
    (total_validators * threshold_percentage) / 100
}

/// A copy of a byte string.
pub fn copy_bytes(data: &[u8]) -> (out: Vec<u8>)
    ensures
        out@ == data@,
{
    let mut out: Vec<u8> = Vec::new();
    append_bytes(&mut out, data);
    assert(Seq::<u8>::empty() + data@ =~= data@);
    out
}

/// Two byte strings are equal.
pub fn bytes_eq(a: &[u8], b: &[u8]) -> (r: bool)
    ensures
        r == (a@ == b@),
{
    if a.len() != b.len() {
        return false;
    }
    let mut i: usize = 0;
    while i < a.len()
        invariant
            i <= a@.len(),
            a@.len() == b@.len(),
            forall|j: int| 0 <= j < i ==> a@[j] == b@[j],
        decreases a.len() - i,
    {
        if a[i] != b[i] {
            return false;
        }
        i = i + 1;
    }
    assert(a@ =~= b@);
    true
}

/// Cryptographic operations of the bridge.
pub struct CryptographyManager;

impl CryptographyManager {
    /// Keccak-256 of the two nodes, the smaller one first.
    pub fn hash_pair(a: &[u8; 32], b: &[u8; 32]) -> (h: [u8; 32])
        ensures
            h == spec_hash_pair(a@, b@),
    {
        let combined = if bytes32_le(a, b) {
            concat32(a, b)
        } else {
            concat32(b, a)
        };
        keccak256(combined.as_slice())
    }

    /// Checks that `proof` leads from `leaf` to `root`. An empty proof holds when the leaf is
    /// the root; a proof element that is not 32 bytes long is refused.
    pub fn verify_merkle_proof(leaf: &[u8; 32], proof: &[Vec<u8>], root: &[u8; 32]) -> (res: Result<
        bool,
        BridgeError,
    >)
        ensures
            res == merkle_verdict(leaf@, vec_views(proof@), root@),
    {
        if proof.len() == 0 {
            return Ok(bytes32_eq(leaf, root));
        }
        let ghost pv = vec_views(proof@);
        let mut i: usize = 0;
        while i < proof.len()
            invariant
                i <= proof.len(),
                pv == vec_views(proof@),
                forall|j: int| 0 <= j < i ==> (#[trigger] pv[j]).len() == 32,
            decreases proof.len() - i,
        {
            if proof[i].len() != 32 {
                assert(pv[i as int].len() != 32);
                return Err(BridgeError::InvalidProofElement);
            }
            i = i + 1;
        }
        let mut computed: [u8; 32] = *leaf;
        let mut i: usize = 0;
        assert(pv.skip(0) =~= pv);
        while i < proof.len()
            invariant
                i <= proof.len(),
                pv == vec_views(proof@),
                all_len_32(pv),
                fold_proof(leaf@, pv) == fold_proof(computed@, pv.skip(i as int)),
            decreases proof.len() - i,
        {
            let mut element: [u8; 32] = [0u8; 32];
            let mut j: usize = 0;
            assert(pv[i as int] == proof@[i as int]@);
            while j < 32
                invariant
                    j <= 32,
                    i < proof.len(),
                    proof@[i as int]@.len() == 32,
                    forall|m: int| 0 <= m < j ==> element@[m] == proof@[i as int]@[m],
                decreases 32 - j,
            {
                element[j] = proof[i][j];
                j = j + 1;
            }
            assert(element@ =~= pv[i as int]);
            assert(pv.skip(i as int)[0] == pv[i as int]);
            assert(pv.skip(i as int).drop_first() =~= pv.skip(i + 1));
            computed = Self::hash_pair(&computed, &element);
            i = i + 1;
        }
        assert(pv.skip(proof.len() as int).len() == 0);
        Ok(bytes32_eq(&computed, root))
    }

    /// The root of the Merkle tree over `leaves`; an empty set of leaves has none.
    pub fn build_merkle_root(leaves: &[[u8; 32]]) -> (res: Result<[u8; 32], BridgeError>)
        ensures
            leaves@.len() == 0 ==> res == Err::<[u8; 32], BridgeError>(BridgeError::EmptyMerkleTree),
            leaves@.len() > 0 ==> (res matches Ok(r) && r@ == merkle_root(node_views(leaves@))),
    {
        if leaves.len() == 0 {
            return Err(BridgeError::EmptyMerkleTree);
        }
        if leaves.len() == 1 {
            return Ok(leaves[0]);
        }
        let mut current: Vec<[u8; 32]> = copy_nodes(leaves);
        let ghost target = merkle_root(node_views(leaves@));
        assert(current@ == leaves@);
        while current.len() > 1
            invariant
                current@.len() >= 1,
                merkle_root(node_views(current@)) == target,
            decreases current@.len(),
        {
            let next = build_next_level(&current);
            current = next;
        }
        Ok(current[0])
    }

    /// The inclusion proof of the first leaf equal to `target_hash`.
    pub fn generate_merkle_proof(target_hash: &[u8; 32], all_hashes: &[[u8; 32]]) -> (res: Result<
        Vec<Vec<u8>>,
        BridgeError,
    >)
        ensures
            (forall|j: int| 0 <= j < all_hashes@.len() ==> all_hashes@[j]@ != target_hash@) ==> res
                == Err::<Vec<Vec<u8>>, BridgeError>(BridgeError::TransactionNotFound),
            (exists|j: int| 0 <= j < all_hashes@.len() && all_hashes@[j]@ == target_hash@) ==> (
            res matches Ok(p) && vec_views(p@) == merkle_path(
                node_views(all_hashes@),
                first_index_of(node_views(all_hashes@), target_hash@),
            )),
    {
        let idx = match position_of(target_hash, all_hashes) {
            Some(i) => i,
            None => {
                return Err(BridgeError::TransactionNotFound);
            },
        };
        let ghost all = node_views(all_hashes@);
        proof {
            let c = first_index_of(all, target_hash@);
            assert(0 <= idx < all.len() && all[idx as int] == target_hash@ && forall|j: int|
                0 <= j < idx ==> all[j] != target_hash@);
            if c != idx {
                if c < idx {
                    assert(all[c] != target_hash@);
                } else {
                    assert(all[idx as int] != target_hash@);
                }
            }
            assert(c == idx);
        }
        let ghost path0 = merkle_path(all, idx as int);
        let mut proof_nodes: Vec<[u8; 32]> = Vec::new();
        let mut current: Vec<[u8; 32]> = copy_nodes(all_hashes);
        let mut current_index: usize = idx;
        assert(node_views(current@) == all);
        assert(node_views(proof_nodes@) + merkle_path(node_views(current@), current_index as int)
            =~= path0);
        while current.len() > 1
            invariant
                current@.len() >= 1,
                current_index < current@.len(),
                node_views(proof_nodes@) + merkle_path(node_views(current@), current_index as int)
                    == path0,
            decreases current@.len(),
        {
            let ghost cv = node_views(current@);
            let sibling_node = if current_index % 2 == 0 {
                if current_index + 1 < current.len() {
                    current[current_index + 1]
                } else {
                    current[current_index]
                }
            } else {
                current[current_index - 1]
            };
            assert(sibling_node@ == sibling(cv, current_index as int));
            let ghost prev_index = current_index as int;
            let ghost old_proof = node_views(proof_nodes@);
            proof_nodes.push(sibling_node);
            assert(node_views(proof_nodes@) =~= old_proof.push(sibling_node@));
            let next = build_next_level(&current);
            current = next;
            current_index = current_index / 2;
            proof {
                assert(merkle_path(cv, prev_index) == seq![sibling(cv, prev_index)] + merkle_path(
                    next_level(cv),
                    prev_index / 2,
                ));
                assert(old_proof.push(sibling_node@) + merkle_path(
                    node_views(current@),
                    current_index as int,
                ) =~= old_proof + merkle_path(cv, prev_index));
            }
        }
        assert(merkle_path(node_views(current@), current_index as int) =~= Seq::<Seq<u8>>::empty());
        assert(node_views(proof_nodes@) =~= path0);
        Ok(collect_views(&proof_nodes))
    }

    /// What a signature check gives for the key recovered from the signature: a failed
    /// recovery is an invalid signature, a recovered key is valid when it is the expected one.
    pub fn match_recovered_key(recovered: Option<[u8; 64]>, expected_pubkey: &[u8]) -> (res: Result<bool, BridgeError>)
        ensures
            res == recovered_key_outcome(key_view(recovered), expected_pubkey@),
    {
        match recovered {
            Some(key) => Ok(bytes_eq(&key, expected_pubkey)),
            None => Err(BridgeError::InvalidSignature),
        }
    }

    /// Checks a secp256k1 signature over `message_hash` against the expected public key.
    pub fn verify_secp256k1_signature(
        message_hash: &[u8; 32],
        signature: &[u8; 64],
        recovery_id: &u8,
        expected_pubkey: &[u8; 64],
    ) -> (res: Result<bool, BridgeError>)
        ensures
            res == signature_outcome(message_hash@, signature@, *recovery_id, expected_pubkey@),
            *recovery_id >= 4 ==> res == Err::<bool, BridgeError>(BridgeError::InvalidSignature),
    {
        let recovered = secp256k1_recover_key(message_hash, *recovery_id, signature);
        Self::match_recovered_key(recovered, expected_pubkey)
    }

    /// Counts the validators whose signature over `message_hash` is valid; a validator counts
    /// once, and a signature that cannot be recovered is an error.
    pub fn verify_validator_signatures(message_hash: &[u8; 32], signatures: &[ValidatorSignature]) -> (res: Result<u8, BridgeError>)
        ensures
            res == (match tally_signatures(message_hash@, signatures@) {
                Ok((count, _)) => Ok::<u8, BridgeError>(count),
                Err(e) => Err::<u8, BridgeError>(e),
            }),
    {
        let mut valid_count: u8 = 0;
        let mut used_validators: Vec<Vec<u8>> = Vec::new();
        let mut i: usize = 0;
        assert(signatures@.take(0) =~= Seq::<ValidatorSignature>::empty());
        assert(vec_views(used_validators@).to_set() =~= Set::<Seq<u8>>::empty());
        while i < signatures.len()
            invariant
                i <= signatures@.len(),
                tally_signatures(message_hash@, signatures@.take(i as int)) == Ok::<(u8, Set<Seq<u8>>), BridgeError>(
                    (valid_count, vec_views(used_validators@).to_set()),
                ),
            decreases signatures.len() - i,
        {
            let sig = &signatures[i];
            let ghost prefix = signatures@.take(i as int);
            assert(signatures@.take(i + 1).drop_last() =~= prefix);
            assert(signatures@.take(i + 1).last() == signatures@[i as int]);
            let mut seen = false;
            let mut j: usize = 0;
            while j < used_validators.len()
                invariant
                    j <= used_validators@.len(),
                    seen == exists|k: int| 0 <= k < j && (#[trigger] used_validators@[k])@ == sig.validator_pubkey@,
                decreases used_validators.len() - j,
            {
                if bytes_eq(used_validators[j].as_slice(), sig.validator_pubkey.as_slice()) {
                    seen = true;
                }
                j = j + 1;
            }
            proof {
                let vv = vec_views(used_validators@);
                if seen {
                    let k = choose|k: int| 0 <= k < used_validators@.len() && (#[trigger] used_validators@[k])@ == sig.validator_pubkey@;
                    assert(vv[k] == sig.validator_pubkey@);
                    assert(vv.to_set().contains(sig.validator_pubkey@));
                } else {
                    assert forall|k: int| 0 <= k < vv.len() implies vv[k] != sig.validator_pubkey@ by {
                        assert(vv[k] == used_validators@[k]@);
                    }
                    assert(!vv.contains(sig.validator_pubkey@));
                    assert(!vv.to_set().contains(sig.validator_pubkey@));
                }
            }
            if !seen {
                let pk = &sig.validator_pubkey;
                let recovered = secp256k1_recover_key(message_hash, sig.recovery_id, &sig.signature);
                let ok = match Self::match_recovered_key(recovered, pk.as_slice()) {
                    Ok(b) => b,
                    Err(e) => {
                        proof {
                            lemma_tally_error_persists(message_hash@, signatures@, i + 1);
                            assert(signatures@.take(signatures@.len() as int) =~= signatures@);
                        }
                        return Err(e);
                    },
                };
                if ok {
                    valid_count = valid_count.saturating_add(1);
                    let ghost before = vec_views(used_validators@);
                    used_validators.push(copy_bytes(pk.as_slice()));
                    assert(vec_views(used_validators@) =~= before.push(sig.validator_pubkey@));
                    assert(vec_views(used_validators@).to_set() =~= before.to_set().insert(sig.validator_pubkey@)) by {
                        assert forall|x: Seq<u8>| vec_views(used_validators@).to_set().contains(x) <==> before.to_set().insert(sig.validator_pubkey@).contains(x) by {
                            if before.contains(x) {
                                let k = choose|k: int| 0 <= k < before.len() && before[k] == x;
                                assert(vec_views(used_validators@)[k] == x);
                            }
                            if vec_views(used_validators@).contains(x) && x != sig.validator_pubkey@ {
                                let k = choose|k: int| 0 <= k < vec_views(used_validators@).len() && vec_views(used_validators@)[k] == x;
                                assert(k < before.len());
                                assert(before[k] == x);
                            }
                            if x == sig.validator_pubkey@ {
                                assert(vec_views(used_validators@)[before.len() as int] == x);
                            }
                        }
                    }
                }
            }
            i = i + 1;
        }
        assert(signatures@.take(signatures@.len() as int) =~= signatures@);
        Ok(valid_count)
    }

    /// Checks that a transaction is included under `merkle_root` and signed by at least
    /// `required_confirmations` distinct validators.
    pub fn validate_cross_chain_proof(
        transaction_hash: &[u8; 32],
        merkle_proof: &[Vec<u8>],
        merkle_root: &[u8; 32],
        validator_signatures: &[ValidatorSignature],
        required_confirmations: u8,
    ) -> (res: Result<bool, BridgeError>)
        ensures
            !proof_well_formed(vec_views(merkle_proof@)) && merkle_proof@.len() > 0 ==> res == Err::<bool, BridgeError>(BridgeError::InvalidProofElement),
            (proof_well_formed(vec_views(merkle_proof@)) || merkle_proof@.len() == 0) ==> {
                if fold_proof(transaction_hash@, vec_views(merkle_proof@)) != merkle_root@ {
                    res == Err::<bool, BridgeError>(BridgeError::InvalidMerkleProof)
                } else {
                    match tally_signatures(transaction_hash@, validator_signatures@) {
                        Err(e) => res == Err::<bool, BridgeError>(e),
                        Ok((count, _)) => if count < required_confirmations {
                            res == Err::<bool, BridgeError>(BridgeError::InsufficientValidatorSignatures)
                        } else {
                            res == Ok::<bool, BridgeError>(true)
                        },
                    }
                }
            },
    {
        let is_merkle_valid = Self::verify_merkle_proof(transaction_hash, merkle_proof, merkle_root)?;
        if !is_merkle_valid {
            return Err(BridgeError::InvalidMerkleProof);
        }
        let valid_signatures = Self::verify_validator_signatures(transaction_hash, validator_signatures)?;
        if valid_signatures < required_confirmations {
            return Err(BridgeError::InsufficientValidatorSignatures);
        }
        Ok(true)
    }

    /// The Keccak-256 hash that identifies a cross-chain transaction.
    pub fn create_transaction_hash(
        source_chain: u32,
        destination_chain: u32,
        token_address: &[u8; 32],
        recipient: &[u8; 32],
        amount: u64,
        nonce: u64,
        timestamp: i64,
    ) -> (h: [u8; 32])
        ensures
            h == spec_keccak256(
                transaction_message(source_chain, destination_chain, token_address@, recipient@, amount, nonce, timestamp),
            ),
    {
        let mut message: Vec<u8> = Vec::new();
        push_le_bytes(&mut message, source_chain as u64, 4);
        push_le_bytes(&mut message, destination_chain as u64, 4);
        append_bytes(&mut message, token_address);
        append_bytes(&mut message, recipient);
        push_le_bytes(&mut message, amount, 8);
        push_le_bytes(&mut message, nonce, 8);
        push_le_bytes(&mut message, timestamp as u64, 8);
        assert(message@ =~= transaction_message(source_chain, destination_chain, token_address@, recipient@, amount, nonce, timestamp));
        keccak256(message.as_slice())
    }

    /// Checks that the Merkle root of a batch of transactions is `merkle_root`.
    pub fn verify_transaction_batch(
        transactions: &[CrossChainTransaction],
        merkle_root: &[u8; 32],
        block_height: u64,
    ) -> (res: Result<bool, BridgeError>)
        ensures
            transactions@.len() == 0 ==> res == Err::<bool, BridgeError>(BridgeError::EmptyTransactionBatch),
            transactions@.len() > 0 ==> res == Ok::<bool, BridgeError>(
                crate::merkle::merkle_root(transactions@.map_values(|tx: CrossChainTransaction| transaction_leaf(tx))) == merkle_root@,
            ),
    {
        if transactions.len() == 0 {
            return Err(BridgeError::EmptyTransactionBatch);
        }
        let mut hashes: Vec<[u8; 32]> = Vec::new();
        let mut i: usize = 0;
        while i < transactions.len()
            invariant
                i <= transactions@.len(),
                hashes@.len() == i,
                forall|j: int| 0 <= j < i ==> (#[trigger] hashes@[j])@ == transaction_leaf(transactions@[j]),
            decreases transactions.len() - i,
        {
            let tx = &transactions[i];
            let h = Self::create_transaction_hash(
                tx.source_chain,
                tx.destination_chain,
                &tx.token_address,
                &tx.recipient,
                tx.amount,
                tx.nonce,
                tx.timestamp,
            );
            hashes.push(h);
            i = i + 1;
        }
        assert(node_views(hashes@) =~= transactions@.map_values(|tx: CrossChainTransaction| transaction_leaf(tx)));
        let computed_root = Self::build_merkle_root(hashes.as_slice())?;
        Ok(bytes32_eq(&computed_root, merkle_root))
    }

    /// Checks a validator's signature over an event.
    pub fn validate_event_signature(
        event_data: &CrossChainEvent,
        signature: &EventSignature,
        validator_pubkey: &[u8; 64],
    ) -> (res: Result<bool, BridgeError>)
        ensures
            res == signature_outcome(
                spec_keccak256(event_message(*event_data))@,
                signature.signature@,
                signature.recovery_id,
                validator_pubkey@,
            ),
    {
        let event_hash = Self::hash_event_data(event_data)?;
        Self::verify_secp256k1_signature(&event_hash, &signature.signature, &signature.recovery_id, validator_pubkey)
    }

    /// The Keccak-256 hash of an event's fields.
    pub fn hash_event_data(event: &CrossChainEvent) -> (res: Result<[u8; 32], BridgeError>)
        ensures
            res == Ok::<[u8; 32], BridgeError>(spec_keccak256(event_message(*event))),
    {
        let mut data: Vec<u8> = Vec::new();
        push_le_bytes(&mut data, event.event_type as u64, 4);
        push_le_bytes(&mut data, event.chain_id as u64, 4);
        push_le_bytes(&mut data, event.block_height, 8);
        append_bytes(&mut data, &event.transaction_hash);
        push_le_bytes(&mut data, event.timestamp as u64, 8);
        append_bytes(&mut data, event.data.as_slice());
        assert(data@ =~= event_message(*event));
        Ok(keccak256(data.as_slice()))
    }

    /// Checks that a trusted relayer signed a relayed message.
    pub fn verify_relay_proof(
        message: &RelayMessage,
        proof: &RelayProof,
        trusted_relayers: &[[u8; 32]],
    ) -> (res: Result<bool, BridgeError>)
        ensures
            !(exists|k: int| 0 <= k < trusted_relayers@.len() && trusted_relayers@[k] == proof.relayer_pubkey)
                ==> res == Err::<bool, BridgeError>(BridgeError::UntrustedRelayer),
            (exists|k: int| 0 <= k < trusted_relayers@.len() && trusted_relayers@[k] == proof.relayer_pubkey)
                ==> res == signature_outcome(
                spec_keccak256(relay_message_bytes(*message))@,
                proof.signature@,
                proof.recovery_id,
                padded_relayer_key(proof.relayer_pubkey@),
            ),
    {
        let mut trusted = false;
        let mut k: usize = 0;
        while k < trusted_relayers.len()
            invariant
                k <= trusted_relayers@.len(),
                trusted == exists|m: int| 0 <= m < k && trusted_relayers@[m] == proof.relayer_pubkey,
            decreases trusted_relayers.len() - k,
        {
            if bytes32_eq(&trusted_relayers[k], &proof.relayer_pubkey) {
                assert(trusted_relayers@[k as int]@ =~= proof.relayer_pubkey@);
                assert(trusted_relayers@[k as int] == proof.relayer_pubkey);
                trusted = true;
            }
            k = k + 1;
        }
        if !trusted {
            return Err(BridgeError::UntrustedRelayer);
        }
        let message_hash = Self::hash_relay_message(message)?;
        let mut pubkey_64: [u8; 64] = [0u8; 64];
        let mut j: usize = 0;
        while j < 32
            invariant
                j <= 32,
                pubkey_64@.len() == 64,
                forall|m: int| 0 <= m < j ==> pubkey_64@[m] == proof.relayer_pubkey@[m],
                forall|m: int| 32 <= m < 64 ==> pubkey_64@[m] == 0u8,
            decreases 32 - j,
        {
            pubkey_64[j] = proof.relayer_pubkey[j];
            j = j + 1;
        }
        assert(pubkey_64@ =~= padded_relayer_key(proof.relayer_pubkey@));
        Self::verify_secp256k1_signature(&message_hash, &proof.signature, &proof.recovery_id, &pubkey_64)
    }

    /// The Keccak-256 hash of a relayed message's fields.
    pub fn hash_relay_message(message: &RelayMessage) -> (res: Result<[u8; 32], BridgeError>)
        ensures
            res == Ok::<[u8; 32], BridgeError>(spec_keccak256(relay_message_bytes(*message))),
    {
        let mut data: Vec<u8> = Vec::new();
        push_le_bytes(&mut data, message.source_chain as u64, 4);
        push_le_bytes(&mut data, message.destination_chain as u64, 4);
        push_le_bytes(&mut data, message.nonce, 8);
        append_bytes(&mut data, &message.sender);
        append_bytes(&mut data, &message.recipient);
        append_bytes(&mut data, message.payload.as_slice());
        push_le_bytes(&mut data, message.timestamp as u64, 8);
        assert(data@ =~= relay_message_bytes(*message));
        Ok(keccak256(data.as_slice()))
    }

    /// Whether the number of signatures (taken modulo 256, as a `u8`) reaches the threshold
    /// share of the validators; a threshold above 100 percent is refused.
    pub fn validate_multisig_threshold(
        signatures: &[ValidatorSignature],
        total_validators: u8,
        threshold_percentage: u8,
    ) -> (res: Result<bool, BridgeError>)
        ensures
            threshold_percentage > 100 ==> res == Err::<bool, BridgeError>(BridgeError::InvalidThreshold),
            threshold_percentage <= 100 ==> res == Ok::<bool, BridgeError>(
                (signatures@.len() % 256) >= required_signatures(total_validators, threshold_percentage),
            ),
    {
        if threshold_percentage > 100 {
            return Err(BridgeError::InvalidThreshold);
        }
        assert(total_validators * threshold_percentage <= 25500) by (nonlinear_arith)
            requires
                total_validators <= 255,
                threshold_percentage <= 100,
        ;
        let required = ((total_validators as u16 * threshold_percentage as u16) / 100) as u8;
        let valid = (signatures.len() % 256) as u8;
        Ok(valid >= required)
    }

    /// Checks the validator count, threshold and proof depth of a bridge configuration.
    pub fn validate_crypto_params(
        validator_count: u8,
        threshold_percentage: u8,
        max_proof_depth: usize,
    ) -> (res: Result<(), BridgeError>)
        ensures
            res == (if validator_count == 0 {
                Err::<(), BridgeError>(BridgeError::InvalidValidatorCount)
            } else if threshold_percentage < MIN_VALIDATOR_THRESHOLD || threshold_percentage > 100 {
                Err(BridgeError::InvalidThreshold)
            } else if max_proof_depth > MAX_MERKLE_DEPTH {
                Err(BridgeError::InvalidProofDepth)
            } else {
                Ok(())
            }),
    {
        if validator_count == 0 {
            return Err(BridgeError::InvalidValidatorCount);
        }
        if threshold_percentage < MIN_VALIDATOR_THRESHOLD || threshold_percentage > 100 {
            return Err(BridgeError::InvalidThreshold);
        }
        if max_proof_depth > MAX_MERKLE_DEPTH {
            return Err(BridgeError::InvalidProofDepth);
        }
        Ok(())
    }

    /// A copy of the input, which must be non-empty and at most 1 MiB long.
    pub fn sanitize_crypto_input(data: &[u8]) -> (res: Result<Vec<u8>, BridgeError>)
        ensures
            data@.len() == 0 ==> res == Err::<Vec<u8>, BridgeError>(BridgeError::EmptyInput),
            data@.len() > MAX_CRYPTO_INPUT_LEN ==> res == Err::<Vec<u8>, BridgeError>(BridgeError::InputTooLarge),
            0 < data@.len() <= MAX_CRYPTO_INPUT_LEN ==> (res matches Ok(v) && v@ == data@),
    {
        if data.len() == 0 {
            return Err(BridgeError::EmptyInput);
        }
        if data.len() > MAX_CRYPTO_INPUT_LEN {
            return Err(BridgeError::InputTooLarge);
        }
        Ok(copy_bytes(data))
    }

    /// Checks that `timestamp` is neither in the future nor older than `max_age_seconds`,
    /// at time `now`.
    pub fn verify_timestamp(timestamp: i64, max_age_seconds: i64, now: i64) -> (res: Result<bool, BridgeError>)
        requires
            i64::MIN <= now - timestamp <= i64::MAX,
        ensures
            now - timestamp < 0 ==> res == Err::<bool, BridgeError>(BridgeError::FutureTimestamp),
            now - timestamp > max_age_seconds && now - timestamp >= 0 ==> res == Err::<bool, BridgeError>(BridgeError::ExpiredTimestamp),
            0 <= now - timestamp <= max_age_seconds ==> res == Ok::<bool, BridgeError>(true),
    {
        let age = now - timestamp;
        if age < 0 {
            return Err(BridgeError::FutureTimestamp);
        }
        if age > max_age_seconds {
            return Err(BridgeError::ExpiredTimestamp);
        }
        Ok(true)
    }

    /// Rate limiting of cryptographic operations: every operation is allowed.
    pub fn check_rate_limit(
        pubkey: &[u8; 32],
        operation_type: u8,
        window_seconds: i64,
        max_operations: u32,
        now: i64,
    ) -> (res: Result<bool, BridgeError>)
        ensures
            res == Ok::<bool, BridgeError>(true),
    {
        Ok(true)
    }
}

} // verus!

