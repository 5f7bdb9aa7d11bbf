//! Unlocking tokens that arrive from another chain: timing, inclusion proof, validator
//! signatures, fees, rate limits and statistics; the token transfer itself is left to the
//! caller.
use vstd::prelude::*;

use crate::cryptography::CryptographyManager;
use crate::errors::BridgeError;
use crate::hashing::{append_bytes, keccak256, le_bytes, push_le_bytes, spec_keccak256};
use crate::merkle::{bytes32_eq, fold_proof, node_views};
use crate::signature_verification::{instruction_matches, verify_ed25519_instruction_data};

verus! {

/// Most validator signatures examined for one unlock.
pub const MAX_VALIDATOR_SIGNATURES: usize = 32;
/// Prefix of every unlock message (`FINOVA_UNLOCK:`).
pub const UNLOCK_MESSAGE_PREFIX: [u8; 14] = [70, 73, 78, 79, 86, 65, 95, 85, 78, 76, 79, 67, 75, 58];

/// Bridge settings and running totals read and kept by unlocks.
#[derive(Clone, Copy, Debug)]
pub struct UnlockConfig {
    pub merkle_root: [u8; 32],
    pub required_signatures: u8,
    pub min_lock_duration: u64,
    pub max_unlock_window: u64,
    pub bridge_fee_rate: u16,
    pub min_bridge_fee: u64,
    pub max_bridge_fee: u64,
    pub total_unlocked: u64,
    pub total_transactions: u64,
    pub last_unlock_timestamp: u64,
    pub rate_limit_window: u64,
    pub max_unlock_per_window: u64,
    pub unlock_amount_in_window: u64,
    pub fee_collector: [u8; 32],
    pub authority_bump: u8,
}

/// The lock that an unlock releases.
#[derive(Clone, Copy, Debug)]
pub struct PendingUnlock {
    pub source_chain_id: u16,
    pub amount: u64,
    pub recipient: [u8; 32],
    pub destination_chain_id: u16,
    pub lock_timestamp: u64,
    pub is_processed: bool,
    pub unlock_timestamp: u64,
    pub actual_unlock_amount: u64,
}

/// What an unlock works on: the bridge, the lock, the validators' keys and the current time.
#[derive(Clone, Debug)]
pub struct UnlockTokens {
    pub bridge_config: UnlockConfig,
    pub locked_tokens: PendingUnlock,
    pub validators: Vec<[u8; 32]>,
    pub now: i64,
}

/// The bytes of the leaf that proves an unlock.
pub open spec fn unlock_leaf(tx_hash: Seq<u8>, source_chain_id: u16, amount: u64, recipient: Seq<u8>, destination_chain_id: u16) -> Seq<u8> {
    tx_hash + le_bytes(source_chain_id as u64, 2) + le_bytes(amount, 8) + recipient + le_bytes(destination_chain_id as u64, 2)
}

/// The message validators sign to approve an unlock.
pub open spec fn unlock_message(
    tx_hash: Seq<u8>,
    source_chain_id: u16,
    amount: u64,
    recipient: Seq<u8>,
    destination_chain_id: u16,
    timestamp: u64,
) -> Seq<u8> {
    UNLOCK_MESSAGE_PREFIX@ + unlock_leaf(tx_hash, source_chain_id, amount, recipient, destination_chain_id) + le_bytes(timestamp, 8)
}

/// The bytes of the leaf that proves an unlock: the transaction hash, source chain, amount,
/// recipient and destination chain.
pub fn create_unlock_leaf_data(
    tx_hash: [u8; 32],
    source_chain_id: u16,
    amount: u64,
    recipient: [u8; 32],
    destination_chain_id: u16,
) -> (leaf: Vec<u8>)
    ensures
        leaf@ == unlock_leaf(tx_hash@, source_chain_id, amount, recipient@, destination_chain_id),
{
    let mut leaf_data: Vec<u8> = Vec::new();
    append_bytes(&mut leaf_data, &tx_hash);
    push_le_bytes(&mut leaf_data, source_chain_id as u64, 2);
    push_le_bytes(&mut leaf_data, amount, 8);
    append_bytes(&mut leaf_data, &recipient);
    push_le_bytes(&mut leaf_data, destination_chain_id as u64, 2);
    assert(leaf_data@ =~= unlock_leaf(tx_hash@, source_chain_id, amount, recipient@, destination_chain_id));
    leaf_data
}

/// The message validators sign to approve an unlock: `FINOVA_UNLOCK:`, the leaf fields and the
/// time.
pub fn create_unlock_message(
    tx_hash: [u8; 32],
    source_chain_id: u16,
    amount: u64,
    recipient: [u8; 32],
    destination_chain_id: u16,
    timestamp: u64,
) -> (message: Vec<u8>)
    ensures
        message@ == unlock_message(tx_hash@, source_chain_id, amount, recipient@, destination_chain_id, timestamp),
{
    let mut message: Vec<u8> = Vec::new();
    let prefix: [u8; 14] = UNLOCK_MESSAGE_PREFIX;
    append_bytes(&mut message, &prefix);
    append_bytes(&mut message, &tx_hash);
    push_le_bytes(&mut message, source_chain_id as u64, 2);
    push_le_bytes(&mut message, amount, 8);
    append_bytes(&mut message, &recipient);
    push_le_bytes(&mut message, destination_chain_id as u64, 2);
    push_le_bytes(&mut message, timestamp, 8);
    assert(message@ =~= unlock_message(tx_hash@, source_chain_id, amount, recipient@, destination_chain_id, timestamp));
    message
}

/// The unlock fee: none at a zero rate; otherwise the rate's share (zero if the product
/// overflows), raised to the minimum fee and, when a maximum is set, capped at it.
pub open spec fn unlock_fee(amount: u64, fee_rate: u16, min_fee: u64, max_fee: u64) -> u64 {
    if fee_rate == 0 {
        0
    } else {
        let rate_fee = if amount * fee_rate > u64::MAX { 0 } else { amount * fee_rate / 10000 };
        let fee = if rate_fee > min_fee { rate_fee } else { min_fee as int };
        (if max_fee > 0 && fee > max_fee { max_fee as int } else { fee }) as u64
    }
}

/// The unlock fee on `amount` at `fee_rate` basis points, between `min_fee` and `max_fee`.
pub fn calculate_bridge_fee(amount: u64, fee_rate: u16, min_fee: u64, max_fee: u64) -> (fee: u64)
    ensures
        fee == unlock_fee(amount, fee_rate, min_fee, max_fee),
{
    if fee_rate == 0 {
        return 0;
    }
    let rate_fee = match amount.checked_mul(fee_rate as u64) {
        Some(p) => p / 10_000,
        None => 0,
    };
    let fee = if rate_fee > min_fee { rate_fee } else { min_fee };
    if max_fee > 0 {
        if fee < max_fee { fee } else { max_fee }
    } else {
        fee
    }
}

/// What the rate limit says of unlocking `unlock_amount` at time `current_timestamp`.
pub open spec fn rate_limit_outcome(config: UnlockConfig, unlock_amount: u64, current_timestamp: u64) -> Result<(), BridgeError> {
    if config.rate_limit_window == 0 || config.max_unlock_per_window == 0 {
        Ok(())
    } else {
        let window_start = if current_timestamp >= config.rate_limit_window { current_timestamp - config.rate_limit_window } else { 0 };
        if config.last_unlock_timestamp >= window_start {
            if config.unlock_amount_in_window + unlock_amount > u64::MAX {
                Err(BridgeError::MathOverflow)
            } else if config.unlock_amount_in_window + unlock_amount > config.max_unlock_per_window {
                Err(BridgeError::RateLimitExceeded)
            } else {
                Ok(())
            }
        } else {
            Ok(())
        }
    }
}

/// Checks that unlocking `unlock_amount` at time `current_timestamp` stays under the amount
/// allowed per window (when rate limiting is on).
pub fn validate_unlock_rate_limit(bridge_config: &UnlockConfig, unlock_amount: u64, current_timestamp: u64) -> (res: Result<(), BridgeError>)
    ensures
        res == rate_limit_outcome(*bridge_config, unlock_amount, current_timestamp),
{
    let time_window = bridge_config.rate_limit_window;
    let max_amount = bridge_config.max_unlock_per_window;
    if time_window == 0 || max_amount == 0 {
        return Ok(());
    }
    let window_start = match current_timestamp.checked_sub(time_window) {
        Some(s) => s,
        None => 0,
    };
    if bridge_config.last_unlock_timestamp >= window_start {
        let current_window_amount = match bridge_config.unlock_amount_in_window.checked_add(unlock_amount) {
            Some(a) => a,
            None => { return Err(BridgeError::MathOverflow); },
        };
        if current_window_amount > max_amount {
            return Err(BridgeError::RateLimitExceeded);
        }
    }
    Ok(())
}

/// Whether an Ed25519 instruction of the transaction carries `signature` by `public_key` over
/// `message`.
pub open spec fn carried_signature(message: Seq<u8>, signature: Seq<u8>, public_key: Seq<u8>, instructions: Seq<Seq<u8>>) -> bool {
    exists|i: int| 0 <= i < instructions.len() && instruction_matches(instructions[i], signature, public_key, message)
}

/// The first validator from position `k` on that is not yet used and whose key made `signature`.
pub open spec fn first_free_signer(
    validators: Seq<[u8; 32]>,
    used: Set<int>,
    signature: Seq<u8>,
    message: Seq<u8>,
    instructions: Seq<Seq<u8>>,
    k: int,
) -> Option<int>
    decreases validators.len() - k,
{
    if k < 0 || k >= validators.len() {
        None
    } else if !used.contains(k) && carried_signature(message, signature, validators[k]@, instructions) {
        Some(k)
    } else {
        first_free_signer(validators, used, signature, message, instructions, k + 1)
    }
}

/// Matching signatures to validators in order, each signature to the first unused validator
/// that made it: how many matched and which validators were used.
pub open spec fn matched_signers(
    sigs: Seq<[u8; 64]>,
    validators: Seq<[u8; 32]>,
    message: Seq<u8>,
    instructions: Seq<Seq<u8>>,
) -> (nat, Set<int>)
    decreases sigs.len(),
{
    if sigs.len() == 0 {
        (0, Set::empty())
    } else {
        let (count, used) = matched_signers(sigs.drop_last(), validators, message, instructions);
        match first_free_signer(validators, used, sigs.last()@, message, instructions, 0) {
            Some(i) => (count + 1, used.insert(i)),
            None => (count, used),
        }
    }
}

/// The instruction data of the transaction as byte strings.
pub open spec fn instruction_views(instructions: Seq<Vec<u8>>) -> Seq<Seq<u8>> {
    instructions.map_values(|v: Vec<u8>| v@)
}

/// Whether an Ed25519 instruction of the transaction carries the signature.
fn signature_carried(message: &[u8], signature: &[u8; 64], public_key: &[u8; 32], instructions: &[Vec<u8>]) -> (r: bool)
    ensures
        r == carried_signature(message@, signature@, public_key@, instruction_views(instructions@)),
{
    let ghost views = instruction_views(instructions@);
    let mut i: usize = 0;
    while i < instructions.len()
        invariant
            i <= instructions@.len(),
            views == instruction_views(instructions@),
            forall|j: int| 0 <= j < i ==> !instruction_matches(#[trigger] views[j], signature@, public_key@, message@),
        decreases instructions.len() - i,
    {
        let found = match verify_ed25519_instruction_data(instructions[i].as_slice(), signature, public_key, message) {
            Ok(b) => b,
            Err(_) => false,
        };
        if found {
            assert(instruction_matches(views[i as int], signature@, public_key@, message@));
            return true;
        }
        i = i + 1;
    }
    assert forall|j: int| 0 <= j < views.len() implies !instruction_matches(views[j], signature@, public_key@, message@) by {
        assert(!instruction_matches(views[j], signature@, public_key@, message@));
    }
    false
}

/// Whether `x` is in `items`.
fn contains_index(items: &Vec<usize>, x: usize) -> (r: bool)
    ensures
        r == items@.contains(x),
{
    let mut i: usize = 0;
    while i < items.len()
        invariant
            i <= items@.len(),
            forall|j: int| 0 <= j < i ==> items@[j] != x,
        decreases items.len() - i,
    {
        if items[i] == x {
            return true;
        }
        i = i + 1;
    }
    false
}

/// The positions of a list of indices, as a set.
pub open spec fn index_set(items: Seq<usize>) -> Set<int> {
    Set::new(|i: int| exists|j: int| 0 <= j < items.len() && items[j] == i)
}

/// What the inclusion check of an unlock gives.
pub open spec fn merkle_outcome(s: UnlockTokens, merkle_proof: Seq<[u8; 32]>, tx_hash: Seq<u8>) -> Result<(), BridgeError> {
    let l = s.locked_tokens;
    if fold_proof(
        spec_keccak256(unlock_leaf(tx_hash, l.source_chain_id, l.amount, l.recipient@, l.destination_chain_id))@,
        node_views(merkle_proof),
    ) == s.bridge_config.merkle_root@ {
        Ok(())
    } else {
        Err(BridgeError::InvalidMerkleProof)
    }
}

/// What the signature check of an unlock gives.
pub open spec fn signatures_outcome(
    s: UnlockTokens,
    sigs: Seq<[u8; 64]>,
    tx_hash: Seq<u8>,
    unlock_amount: u64,
    instructions: Seq<Seq<u8>>,
) -> Result<(), BridgeError> {
    let l = s.locked_tokens;
    let required = s.bridge_config.required_signatures;
    let message = unlock_message(tx_hash, l.source_chain_id, unlock_amount, l.recipient@, l.destination_chain_id, s.now as u64);
    let examined = if sigs.len() > MAX_VALIDATOR_SIGNATURES { sigs.take(MAX_VALIDATOR_SIGNATURES as int) } else { sigs };
    if sigs.len() < required {
        Err(BridgeError::InsufficientSignatures)
    } else if matched_signers(examined, s.validators@, message, instructions).0 < required {
        Err(BridgeError::InsufficientValidSignatures)
    } else {
        Ok(())
    }
}

/// What the timing check of an unlock gives.
pub open spec fn timing_outcome(s: UnlockTokens) -> Result<(), BridgeError> {
    let now = s.now as u64;
    let lock_time = s.locked_tokens.lock_timestamp;
    if now < lock_time + s.bridge_config.min_lock_duration {
        Err(BridgeError::MinLockDurationNotMet)
    } else if s.bridge_config.max_unlock_window > 0 && now > lock_time + s.bridge_config.max_unlock_window {
        Err(BridgeError::UnlockWindowExpired)
    } else {
        Ok(())
    }
}

/// The amount the recipient of an unlock receives, or why the amount is refused.
pub open spec fn amount_outcome(s: UnlockTokens, unlock_amount: u64) -> Result<u64, BridgeError> {
    let c = s.bridge_config;
    let fee = unlock_fee(unlock_amount, c.bridge_fee_rate, c.min_bridge_fee, c.max_bridge_fee);
    if unlock_amount == 0 {
        Err(BridgeError::InvalidUnlockAmount)
    } else if unlock_amount != s.locked_tokens.amount {
        Err(BridgeError::AmountMismatch)
    } else if unlock_amount < fee {
        Err(BridgeError::MathOverflow)
    } else if unlock_amount == fee {
        Err(BridgeError::InsufficientAmountAfterFees)
    } else {
        Ok((unlock_amount - fee) as u64)
    }
}

/// What an unlock gives: the amount the recipient receives, or the first check that fails.
pub open spec fn unlock_outcome(
    s: UnlockTokens,
    unlock_amount: u64,
    merkle_proof: Seq<[u8; 32]>,
    tx_hash: Seq<u8>,
    sigs: Seq<[u8; 64]>,
    instructions: Seq<Seq<u8>>,
) -> Result<u64, BridgeError> {
    let c = s.bridge_config;
    if timing_outcome(s) is Err {
        Err(timing_outcome(s)->Err_0)
    } else if merkle_outcome(s, merkle_proof, tx_hash) is Err {
        Err(BridgeError::InvalidMerkleProof)
    } else if signatures_outcome(s, sigs, tx_hash, unlock_amount, instructions) is Err {
        Err(signatures_outcome(s, sigs, tx_hash, unlock_amount, instructions)->Err_0)
    } else {
        match amount_outcome(s, unlock_amount) {
            Err(e) => Err(e),
            Ok(net) => match rate_limit_outcome(c, unlock_amount, s.now as u64) {
                Err(e) => Err(e),
                Ok(_) => if c.total_unlocked + unlock_amount > u64::MAX || c.total_transactions + 1 > u64::MAX {
                    Err(BridgeError::MathOverflow)
                } else {
                    Ok(net)
                },
            },
        }
    }
}

impl UnlockTokens {
    /// The time as an unsigned count of seconds (the bits of `now`).
    pub open spec fn current_time(&self) -> u64 {
        self.now as u64
    }

    /// Checks that the lock is included under the bridge's Merkle root: the Keccak-256 hash of
    /// its leaf, folded with the sorted-pair proof, gives the root.
    pub fn validate_merkle_proof(&self, merkle_proof: &[[u8; 32]], leaf_index: u64, tx_hash: [u8; 32]) -> (res: Result<(), BridgeError>)
        ensures
            res == merkle_outcome(*self, merkle_proof@, tx_hash@),
    {
        let leaf_data = create_unlock_leaf_data(
            tx_hash,
            self.locked_tokens.source_chain_id,
            self.locked_tokens.amount,
            self.locked_tokens.recipient,
            self.locked_tokens.destination_chain_id,
        );
        let leaf = keccak256(leaf_data.as_slice());
        let ghost pv = node_views(merkle_proof@);
        let mut computed: [u8; 32] = leaf;
        let mut i: usize = 0;
        assert(pv.skip(0) =~= pv);
        while i < merkle_proof.len()
            invariant
                i <= merkle_proof@.len(),
                pv == node_views(merkle_proof@),
                fold_proof(leaf@, pv) == fold_proof(computed@, pv.skip(i as int)),
            decreases merkle_proof.len() - i,
        {
            assert(pv.skip(i as int)[0] == pv[i as int]);
            assert(pv.skip(i as int).drop_first() =~= pv.skip(i + 1));
            computed = CryptographyManager::hash_pair(&computed, &merkle_proof[i]);
            i = i + 1;
        }
        assert(pv.skip(merkle_proof@.len() as int).len() == 0);
        if !bytes32_eq(&computed, &self.bridge_config.merkle_root) {
            return Err(BridgeError::InvalidMerkleProof);
        }
        Ok(())
    }

    /// Checks that at least the required number of validators signed the unlock message:
    /// each of the first signatures is matched to the first unused validator whose Ed25519
    /// signature it is (as carried by the transaction's Ed25519 instructions).
    pub fn validate_validator_signatures(
        &self,
        validator_signatures: &[[u8; 64]],
        tx_hash: [u8; 32],
        unlock_amount: u64,
        instructions: &[Vec<u8>],
    ) -> (res: Result<(), BridgeError>)
        ensures
            res == signatures_outcome(*self, validator_signatures@, tx_hash@, unlock_amount, instruction_views(instructions@)),
    {
        let required_signatures = self.bridge_config.required_signatures as usize;
        if validator_signatures.len() < required_signatures {
            return Err(BridgeError::InsufficientSignatures);
        }
        let message = create_unlock_message(
            tx_hash,
            self.locked_tokens.source_chain_id,
            unlock_amount,
            self.locked_tokens.recipient,
            self.locked_tokens.destination_chain_id,
            self.now as u64,
        );
        let ghost views = instruction_views(instructions@);
        let limit = if validator_signatures.len() > MAX_VALIDATOR_SIGNATURES { MAX_VALIDATOR_SIGNATURES } else { validator_signatures.len() };
        let ghost examined = validator_signatures@.take(limit as int);
        let mut valid_signatures: usize = 0;
        let mut used_validators: Vec<usize> = Vec::new();
        let mut s: usize = 0;
        assert(examined.take(0) =~= Seq::<[u8; 64]>::empty());
        assert(index_set(used_validators@) =~= Set::<int>::empty());
        while s < limit
            invariant
                s <= limit <= validator_signatures@.len(),
                limit <= MAX_VALIDATOR_SIGNATURES,
                examined == validator_signatures@.take(limit as int),
                views == instruction_views(instructions@),
                valid_signatures <= s,
                matched_signers(examined.take(s as int), self.validators@, message@, views) == (valid_signatures as nat, index_set(used_validators@)),
            decreases limit - s,
        {
            let signature = &validator_signatures[s];
            proof {
                assert(examined.take(s + 1).drop_last() =~= examined.take(s as int));
                assert(examined.take(s + 1).last() == validator_signatures@[s as int]);
            }
            let ghost used = index_set(used_validators@);
            let mut k: usize = 0;
            let mut found = false;
            while !found && k < self.validators.len()
                invariant
                    k <= self.validators@.len(),
                    used == index_set(used_validators@),
                    views == instruction_views(instructions@),
                    !found ==> first_free_signer(self.validators@, used, signature@, message@, views, 0)
                        == first_free_signer(self.validators@, used, signature@, message@, views, k as int),
                    found ==> k < self.validators@.len() && first_free_signer(self.validators@, used, signature@, message@, views, 0) == Some(k as int),
                decreases self.validators@.len() - k + (if found { 0int } else { 1int }),
            {
                let taken = contains_index(&used_validators, k);
                proof {
                    assert(taken == used.contains(k as int));
                }
                if !taken && signature_carried(message.as_slice(), signature, &self.validators[k], instructions) {
                    found = true;
                } else {
                    k = k + 1;
                }
            }
            if found {
                proof {
                    assert(index_set(used_validators@.push(k)) =~= used.insert(k as int)) by {
                        assert forall|x: int| index_set(used_validators@.push(k)).contains(x) <==> used.insert(k as int).contains(x) by {
                            if index_set(used_validators@.push(k)).contains(x) {
                                let j = choose|j: int| 0 <= j < used_validators@.push(k).len() && used_validators@.push(k)[j] == x;
                                if j < used_validators@.len() {
                                    assert(used_validators@[j] == x);
                                }
                            }
                            if used.contains(x) {
                                let j = choose|j: int| 0 <= j < used_validators@.len() && used_validators@[j] == x;
                                assert(used_validators@.push(k)[j] == x);
                            }
                            if x == k {
                                assert(used_validators@.push(k)[used_validators@.len() as int] == x);
                            }
                        }
                    }
                }
                valid_signatures = valid_signatures + 1;
                used_validators.push(k);
            } else {
                assert(first_free_signer(self.validators@, used, signature@, message@, views, self.validators@.len() as int) is None);
            }
            s = s + 1;
        }
        assert(examined.take(limit as int) =~= examined);
        if limit == validator_signatures.len() {
            assert(validator_signatures@.take(limit as int) =~= validator_signatures@);
        }
        if valid_signatures < required_signatures {
            return Err(BridgeError::InsufficientValidSignatures);
        }
        Ok(())
    }

    /// Checks that the lock has been held for the minimum duration and, when a window is set,
    /// is unlocked within it.
    pub fn validate_unlock_timing(&self) -> (res: Result<(), BridgeError>)
        requires
            self.locked_tokens.lock_timestamp + self.bridge_config.min_lock_duration <= u64::MAX,
            self.bridge_config.max_unlock_window > 0 ==> self.locked_tokens.lock_timestamp + self.bridge_config.max_unlock_window <= u64::MAX,
        ensures
            res == timing_outcome(*self),
    {
        let current_time = self.now as u64;
        let lock_time = self.locked_tokens.lock_timestamp;
        if current_time < lock_time + self.bridge_config.min_lock_duration {
            return Err(BridgeError::MinLockDurationNotMet);
        }
        let max_unlock_window = self.bridge_config.max_unlock_window;
        if max_unlock_window > 0 {
            if current_time > lock_time + max_unlock_window {
                return Err(BridgeError::UnlockWindowExpired);
            }
        }
        Ok(())
    }

    /// The amount the recipient receives: the locked amount (which must be the one asked for)
    /// less the unlock fee, which must leave something.
    pub fn validate_unlock_amount(&self, unlock_amount: u64) -> (res: Result<u64, BridgeError>)
        ensures
            res == amount_outcome(*self, unlock_amount),
    {
        if unlock_amount == 0 {
            return Err(BridgeError::InvalidUnlockAmount);
        }
        if unlock_amount != self.locked_tokens.amount {
            return Err(BridgeError::AmountMismatch);
        }
        let bridge_fee = calculate_bridge_fee(
            unlock_amount,
            self.bridge_config.bridge_fee_rate,
            self.bridge_config.min_bridge_fee,
            self.bridge_config.max_bridge_fee,
        );
        let net_unlock_amount = match unlock_amount.checked_sub(bridge_fee) {
            Some(n) => n,
            None => { return Err(BridgeError::MathOverflow); },
        };
        if net_unlock_amount == 0 {
            return Err(BridgeError::InsufficientAmountAfterFees);
        }
        Ok(net_unlock_amount)
    }

    /// Adds an unlock of `unlock_amount` to the bridge's totals and records its time; a total
    /// that would overflow is an error (with the totals before it already updated).
    pub fn update_bridge_stats(&mut self, unlock_amount: u64) -> (res: Result<(), BridgeError>)
        ensures
            ({
                let c = old(self).bridge_config;
                if c.total_unlocked + unlock_amount > u64::MAX {
                    res == Err::<(), BridgeError>(BridgeError::MathOverflow) && *final(self) == *old(self)
                } else if c.total_transactions + 1 > u64::MAX {
                    res == Err::<(), BridgeError>(BridgeError::MathOverflow)
                } else {
                    &&& res is Ok
                    &&& final(self).bridge_config.total_unlocked == c.total_unlocked + unlock_amount
                    &&& final(self).bridge_config.total_transactions == c.total_transactions + 1
                    &&& final(self).bridge_config.last_unlock_timestamp == old(self).current_time()
                }
            }),
            final(self).locked_tokens == old(self).locked_tokens,
            final(self).now == old(self).now,
    {
        self.bridge_config.total_unlocked = match self.bridge_config.total_unlocked.checked_add(unlock_amount) {
            Some(v) => v,
            None => { return Err(BridgeError::MathOverflow); },
        };
        self.bridge_config.total_transactions = match self.bridge_config.total_transactions.checked_add(1) {
            Some(v) => v,
            None => { return Err(BridgeError::MathOverflow); },
        };
        self.bridge_config.last_unlock_timestamp = self.now as u64;
        Ok(())
    }
}

impl UnlockTokens {
    /// Handles an unlock: checks its timing, inclusion proof, validator signatures, amount and
    /// the rate limit, marks the lock processed and adds the unlock to the bridge's totals.
    /// Returns the amount that the caller moves from the bridge vault to the recipient.
    pub fn handler(
        &mut self,
        unlock_amount: u64,
        merkle_proof: &[[u8; 32]],
        leaf_index: u64,
        source_chain_id: u16,
        tx_hash: [u8; 32],
        validator_signatures: &[[u8; 64]],
        instructions: &[Vec<u8>],
    ) -> (res: Result<u64, BridgeError>)
        requires
            old(self).locked_tokens.lock_timestamp + old(self).bridge_config.min_lock_duration <= u64::MAX,
            old(self).bridge_config.max_unlock_window > 0 ==> old(self).locked_tokens.lock_timestamp
                + old(self).bridge_config.max_unlock_window <= u64::MAX,
        ensures
            match unlock_outcome(*old(self), unlock_amount, merkle_proof@, tx_hash@, validator_signatures@, instruction_views(instructions@)) {
                Err(e) => res == Err::<u64, BridgeError>(e),
                Ok(net) => {
                    &&& res == Ok::<u64, BridgeError>(net)
                    &&& final(self).locked_tokens.is_processed
                    &&& final(self).locked_tokens.unlock_timestamp == old(self).now as u64
                    &&& final(self).locked_tokens.actual_unlock_amount == net
                    &&& final(self).locked_tokens.amount == old(self).locked_tokens.amount
                    &&& final(self).bridge_config.total_unlocked == old(self).bridge_config.total_unlocked + unlock_amount
                    &&& final(self).bridge_config.total_transactions == old(self).bridge_config.total_transactions + 1
                    &&& final(self).bridge_config.last_unlock_timestamp == old(self).now as u64
                },
            },
    {
        match self.validate_unlock_timing() {
            Ok(()) => {},
            Err(e) => { return Err(e); },
        }
        match self.validate_merkle_proof(merkle_proof, leaf_index, tx_hash) {
            Ok(()) => {},
            Err(e) => { return Err(e); },
        }
        match self.validate_validator_signatures(validator_signatures, tx_hash, unlock_amount, instructions) {
            Ok(()) => {},
            Err(e) => { return Err(e); },
        }
        let net_unlock_amount = match self.validate_unlock_amount(unlock_amount) {
            Ok(n) => n,
            Err(e) => { return Err(e); },
        };
        match validate_unlock_rate_limit(&self.bridge_config, unlock_amount, self.now as u64) {
            Ok(()) => {},
            Err(e) => { return Err(e); },
        }
        let _bridge_fee = match unlock_amount.checked_sub(net_unlock_amount) {
            Some(f) => f,
            None => { return Err(BridgeError::MathOverflow); },
        };
        self.locked_tokens.is_processed = true;
        self.locked_tokens.unlock_timestamp = self.now as u64;
        self.locked_tokens.actual_unlock_amount = net_unlock_amount;
        match self.update_bridge_stats(unlock_amount) {
            Ok(()) => {},
            Err(e) => { return Err(e); },
        }
        Ok(net_unlock_amount)
    }
}

} // verus!
