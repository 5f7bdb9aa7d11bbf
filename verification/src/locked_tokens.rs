//! Tokens locked in the bridge: the lock's life cycle (confirmation, unlock, pause, resume,
//! cancel), a user's lock history and the bridge's statistics.
use vstd::prelude::*;

use crate::cryptography::CryptographyManager;
use crate::errors::BridgeError;
use crate::merkle::{bytes32_eq, fold_proof, node_views};

verus! {

/// How long a lock stays valid, in seconds.
pub const LOCK_EXPIRY_DURATION: i64 = 604800;
/// Chain id of Ethereum.
pub const ETHEREUM_CHAIN_ID: u8 = 1;
/// Chain id of BNB Smart Chain.
pub const BSC_CHAIN_ID: u8 = 56;
/// Chain id of Polygon.
pub const POLYGON_CHAIN_ID: u8 = 137;
/// Base fee rate towards Ethereum, in basis points.
pub const ETHEREUM_BASE_FEE_RATE: u64 = 30;
/// Base fee rate towards BNB Smart Chain, in basis points.
pub const BSC_BASE_FEE_RATE: u64 = 10;
/// Base fee rate towards Polygon, in basis points.
pub const POLYGON_BASE_FEE_RATE: u64 = 5;
/// Base fee rate towards other chains, in basis points.
pub const DEFAULT_BASE_FEE_RATE: u64 = 20;
/// Amount from which the high-volume discount applies.
pub const HIGH_VOLUME_THRESHOLD: u64 = 100_000_000_000;
/// Amount from which the medium-volume discount applies.
pub const MEDIUM_VOLUME_THRESHOLD: u64 = 10_000_000_000;
/// High-volume discount, in basis points.
pub const HIGH_VOLUME_DISCOUNT: u64 = 10;
/// Medium-volume discount, in basis points.
pub const MEDIUM_VOLUME_DISCOUNT: u64 = 5;
/// Smallest amount that can be locked.
pub const MIN_LOCK_AMOUNT: u64 = 1_000;
/// Largest amount that can be locked.
pub const MAX_LOCK_AMOUNT: u64 = 1_000_000_000_000;
/// Fewest confirmations a lock may require.
pub const MIN_REQUIRED_CONFIRMATIONS: u8 = 1;
/// Most confirmations a lock may require.
pub const MAX_REQUIRED_CONFIRMATIONS: u8 = 21;
/// Longest Merkle proof a lock may hold.
pub const MAX_MERKLE_PROOF_DEPTH: usize = 32;
/// Locked total from which a user is in the silver tier.
pub const SILVER_TIER_THRESHOLD: u64 = 1_000_000_000;
/// Locked total from which a user is in the gold tier.
pub const GOLD_TIER_THRESHOLD: u64 = 10_000_000_000;
/// Locked total from which a user is in the platinum tier.
pub const PLATINUM_TIER_THRESHOLD: u64 = 100_000_000_000;
/// Fee discount of the silver tier, in basis points.
pub const SILVER_FEE_DISCOUNT: u64 = 5;
/// Fee discount of the gold tier, in basis points.
pub const GOLD_FEE_DISCOUNT: u64 = 10;
/// Fee discount of the platinum tier, in basis points.
pub const PLATINUM_FEE_DISCOUNT: u64 = 20;
/// Days of statistics kept.
pub const MAX_DAILY_STATS: usize = 30;
/// Seconds in a day.
pub const SECONDS_PER_DAY: i64 = 86400;

/// Where a lock stands.
#[derive(Clone, Copy, Debug, PartialEq, Eq, Structural)]
pub enum LockStatus {
    Locked,
    ReadyToUnlock,
    Unlocked,
    Cancelled,
    Paused,
    Failed,
    EmergencyLocked,
}

impl Default for LockStatus {
    fn default() -> (s: Self)
        ensures
            s == LockStatus::Locked,
    {
        LockStatus::Locked
    }
}

/// A validator's signature confirming a lock.
#[derive(Clone, Copy, Debug)]
pub struct ValidatorSignature {
    pub validator: [u8; 32],
    pub signature: [u8; 64],
    pub message_hash: [u8; 32],
}

impl ValidatorSignature {
    /// Size of a stored signature record in bytes.
    pub const LEN: usize = 128;
}

/// Free-form information attached to a lock.
#[derive(Clone, Debug)]
pub struct LockMetadata {
    pub description: String,
    pub tags: Vec<String>,
    pub custom_data: Vec<u8>,
    pub priority: u8,
    pub gas_limit: u64,
    pub gas_price: u64,
}

/// Tokens locked for a transfer to another chain.
#[derive(Clone, Debug)]
pub struct LockedTokens {
    pub lock_id: u64,
    pub user: [u8; 32],
    pub token_mint: [u8; 32],
    pub amount: u64,
    pub destination_chain: u8,
    pub destination_address: [u8; 64],
    pub source_tx_hash: [u8; 32],
    pub locked_at: i64,
    pub unlocked_at: i64,
    pub status: LockStatus,
    pub bridge_fee: u64,
    pub validator_signatures: Vec<ValidatorSignature>,
    pub required_confirmations: u8,
    pub current_confirmations: u8,
    pub nonce: u64,
    pub is_paused: bool,
    pub metadata: LockMetadata,
    pub merkle_proof: Vec<[u8; 32]>,
    pub merkle_root: [u8; 32],
    pub bump: u8,
}

/// Whether `validator` has signed.
pub open spec fn has_signed(sigs: Seq<ValidatorSignature>, validator: [u8; 32]) -> bool {
    exists|i: int| 0 <= i < sigs.len() && sigs[i].validator == validator
}

/// The lock's fields other than its signatures, confirmations and status agree.
pub open spec fn same_terms(a: LockedTokens, b: LockedTokens) -> bool {
    &&& a.lock_id == b.lock_id
    &&& a.user == b.user
    &&& a.token_mint == b.token_mint
    &&& a.amount == b.amount
    &&& a.destination_chain == b.destination_chain
    &&& a.destination_address == b.destination_address
    &&& a.source_tx_hash == b.source_tx_hash
    &&& a.locked_at == b.locked_at
    &&& a.bridge_fee == b.bridge_fee
    &&& a.required_confirmations == b.required_confirmations
    &&& a.nonce == b.nonce
    &&& a.merkle_proof@ == b.merkle_proof@
    &&& a.merkle_root == b.merkle_root
    &&& a.bump == b.bump
}

/// The base fee rate towards a chain, in basis points.
pub open spec fn base_fee_rate(chain: u8) -> u64 {
    if chain == ETHEREUM_CHAIN_ID {
        ETHEREUM_BASE_FEE_RATE
    } else if chain == BSC_CHAIN_ID {
        BSC_BASE_FEE_RATE
    } else if chain == POLYGON_CHAIN_ID {
        POLYGON_BASE_FEE_RATE
    } else {
        DEFAULT_BASE_FEE_RATE
    }
}

/// The volume discount on an amount, in basis points.
pub open spec fn volume_discount(amount: u64) -> u64 {
    if amount >= HIGH_VOLUME_THRESHOLD {
        HIGH_VOLUME_DISCOUNT
    } else if amount >= MEDIUM_VOLUME_THRESHOLD {
        MEDIUM_VOLUME_DISCOUNT
    } else {
        0
    }
}

impl LockedTokens {
    /// The confirmation count is the number of signatures, and no validator signed twice.
    pub open spec fn well_formed(&self) -> bool {
        &&& self.current_confirmations == self.validator_signatures@.len()
        &&& forall|i: int, j: int|
            0 <= i < j < self.validator_signatures@.len() ==> self.validator_signatures@[i].validator
                != self.validator_signatures@[j].validator
    }

    /// Sets up a fresh lock at time `now`, with no signatures, no proof and default metadata.
    pub fn initialize(
        &mut self,
        lock_id: u64,
        user: [u8; 32],
        token_mint: [u8; 32],
        amount: u64,
        destination_chain: u8,
        destination_address: [u8; 64],
        source_tx_hash: [u8; 32],
        bridge_fee: u64,
        required_confirmations: u8,
        nonce: u64,
        bump: u8,
        now: i64,
    ) -> (res: Result<(), BridgeError>)
        ensures
            res is Ok,
            final(self).well_formed(),
            final(self).lock_id == lock_id,
            final(self).user == user,
            final(self).token_mint == token_mint,
            final(self).amount == amount,
            final(self).destination_chain == destination_chain,
            final(self).destination_address == destination_address,
            final(self).source_tx_hash == source_tx_hash,
            final(self).locked_at == now,
            final(self).unlocked_at == 0,
            final(self).status == LockStatus::Locked,
            final(self).bridge_fee == bridge_fee,
            final(self).validator_signatures@.len() == 0,
            final(self).required_confirmations == required_confirmations,
            final(self).current_confirmations == 0,
            final(self).nonce == nonce,
            !final(self).is_paused,
            final(self).metadata.description@.len() == 0,
            final(self).metadata.tags@.len() == 0,
            final(self).metadata.custom_data@.len() == 0,
            final(self).metadata.priority == 0,
            final(self).metadata.gas_limit == 0,
            final(self).metadata.gas_price == 0,
            final(self).merkle_proof@.len() == 0,
            final(self).merkle_root@ == Seq::new(32, |i: int| 0u8),
            final(self).bump == bump,
    {
        self.lock_id = lock_id;
        self.user = user;
        self.token_mint = token_mint;
        self.amount = amount;
        self.destination_chain = destination_chain;
        self.destination_address = destination_address;
        self.source_tx_hash = source_tx_hash;
        self.locked_at = now;
        self.unlocked_at = 0;
        self.status = LockStatus::Locked;
        self.bridge_fee = bridge_fee;
        self.validator_signatures = Vec::new();
        self.required_confirmations = required_confirmations;
        self.current_confirmations = 0;
        self.nonce = nonce;
        self.is_paused = false;
        self.metadata = LockMetadata {
            description: String::new(),
            tags: Vec::new(),
            custom_data: Vec::new(),
            priority: 0,
            gas_limit: 0,
            gas_price: 0,
        };
        self.merkle_proof = Vec::new();
        self.merkle_root = [0u8; 32];
        self.bump = bump;
        assert(self.merkle_root@ =~= Seq::new(32, |i: int| 0u8));
        Ok(())
    }

    /// Records a validator's confirmation; a validator confirms at most once. The lock becomes
    /// ready to unlock once the confirmations reach the required number.
    pub fn add_validator_signature(
        &mut self,
        validator: [u8; 32],
        signature: [u8; 64],
        message_hash: [u8; 32],
    ) -> (res: Result<(), BridgeError>)
        requires
            old(self).well_formed(),
            !has_signed(old(self).validator_signatures@, validator) ==> old(self).current_confirmations < u8::MAX,
        ensures
            final(self).well_formed(),
            has_signed(old(self).validator_signatures@, validator) ==> res == Err::<(), BridgeError>(
                BridgeError::ValidatorAlreadySigned,
            ) && *final(self) == *old(self),
            !has_signed(old(self).validator_signatures@, validator) ==> {
                &&& res is Ok
                &&& final(self).validator_signatures@ == old(self).validator_signatures@.push(
                    ValidatorSignature { validator, signature, message_hash },
                )
                &&& final(self).current_confirmations == old(self).current_confirmations + 1
                &&& final(self).status == (if final(self).current_confirmations >= old(self).required_confirmations {
                    LockStatus::ReadyToUnlock
                } else {
                    old(self).status
                })
                &&& same_terms(*final(self), *old(self))
                &&& final(self).metadata == old(self).metadata
                &&& final(self).is_paused == old(self).is_paused
                &&& final(self).unlocked_at == old(self).unlocked_at
            },
    {
        let mut i: usize = 0;
        while i < self.validator_signatures.len()
            invariant
                i <= self.validator_signatures@.len(),
                self.well_formed(),
                forall|j: int| 0 <= j < i ==> self.validator_signatures@[j].validator != validator,
            decreases self.validator_signatures.len() - i,
        {
            if bytes32_eq(&self.validator_signatures[i].validator, &validator) {
                return Err(BridgeError::ValidatorAlreadySigned);
            }
            i = i + 1;
        }
        let validator_signature = ValidatorSignature { validator, signature, message_hash };
        let ghost before = self.validator_signatures@;
        self.validator_signatures.push(validator_signature);
        proof {
            let sigs = self.validator_signatures@;
            assert forall|a: int, b: int| 0 <= a < b < sigs.len() implies sigs[a].validator != sigs[b].validator by {
                assert(sigs[a] == before[a]);
                if b < before.len() {
                    assert(sigs[b] == before[b]);
                }
            }
        }
        self.current_confirmations = self.current_confirmations + 1;
        if self.current_confirmations >= self.required_confirmations {
            self.status = LockStatus::ReadyToUnlock;
        }
        Ok(())
    }

    /// Unlocks the tokens at time `now`; the lock must be ready and not paused.
    pub fn unlock(&mut self, now: i64) -> (res: Result<(), BridgeError>)
        ensures
            old(self).status != LockStatus::ReadyToUnlock ==> res == Err::<(), BridgeError>(
                BridgeError::InsufficientConfirmations,
            ) && *final(self) == *old(self),
            old(self).status == LockStatus::ReadyToUnlock && old(self).is_paused ==> res == Err::<(), BridgeError>(
                BridgeError::BridgePaused,
            ) && *final(self) == *old(self),
            old(self).status == LockStatus::ReadyToUnlock && !old(self).is_paused ==> {
                &&& res is Ok
                &&& final(self).status == LockStatus::Unlocked
                &&& final(self).unlocked_at == now
                &&& same_terms(*final(self), *old(self))
                &&& final(self).metadata == old(self).metadata
                &&& final(self).validator_signatures@ == old(self).validator_signatures@
                &&& final(self).current_confirmations == old(self).current_confirmations
                &&& final(self).is_paused == old(self).is_paused
            },
    {
        if self.status != LockStatus::ReadyToUnlock {
            return Err(BridgeError::InsufficientConfirmations);
        }
        if self.is_paused {
            return Err(BridgeError::BridgePaused);
        }
        self.status = LockStatus::Unlocked;
        self.unlocked_at = now;
        Ok(())
    }

    /// Pauses the lock.
    pub fn emergency_pause(&mut self) -> (res: Result<(), BridgeError>)
        ensures
            res is Ok,
            final(self).is_paused,
            final(self).status == LockStatus::Paused,
            same_terms(*final(self), *old(self)),
            final(self).metadata == old(self).metadata,
            final(self).validator_signatures@ == old(self).validator_signatures@,
            final(self).current_confirmations == old(self).current_confirmations,
            final(self).unlocked_at == old(self).unlocked_at,
    {
        self.is_paused = true;
        self.status = LockStatus::Paused;
        Ok(())
    }

    /// Lifts a pause; the lock is ready to unlock again if it has enough confirmations, and
    /// locked otherwise.
    pub fn resume(&mut self) -> (res: Result<(), BridgeError>)
        ensures
            !old(self).is_paused ==> res == Err::<(), BridgeError>(BridgeError::NotPaused) && *final(self) == *old(self),
            old(self).is_paused ==> {
                &&& res is Ok
                &&& !final(self).is_paused
                &&& final(self).status == (if old(self).current_confirmations >= old(self).required_confirmations {
                    LockStatus::ReadyToUnlock
                } else {
                    LockStatus::Locked
                })
                &&& same_terms(*final(self), *old(self))
                &&& final(self).metadata == old(self).metadata
                &&& final(self).validator_signatures@ == old(self).validator_signatures@
                &&& final(self).current_confirmations == old(self).current_confirmations
                &&& final(self).unlocked_at == old(self).unlocked_at
            },
    {
        if !self.is_paused {
            return Err(BridgeError::NotPaused);
        }
        self.is_paused = false;
        if self.current_confirmations >= self.required_confirmations {
            self.status = LockStatus::ReadyToUnlock;
        } else {
            self.status = LockStatus::Locked;
        }
        Ok(())
    }

    /// Cancels the lock unless it was unlocked.
    pub fn cancel(&mut self) -> (res: Result<(), BridgeError>)
        ensures
            old(self).status == LockStatus::Unlocked ==> res == Err::<(), BridgeError>(BridgeError::AlreadyUnlocked)
                && *final(self) == *old(self),
            old(self).status != LockStatus::Unlocked ==> {
                &&& res is Ok
                &&& final(self).status == LockStatus::Cancelled
                &&& same_terms(*final(self), *old(self))
                &&& final(self).metadata == old(self).metadata
                &&& final(self).validator_signatures@ == old(self).validator_signatures@
                &&& final(self).current_confirmations == old(self).current_confirmations
                &&& final(self).is_paused == old(self).is_paused
                &&& final(self).unlocked_at == old(self).unlocked_at
            },
    {
        if self.status == LockStatus::Unlocked {
            return Err(BridgeError::AlreadyUnlocked);
        }
        self.status = LockStatus::Cancelled;
        Ok(())
    }

    /// Whether the lock has expired at time `now`.
    pub fn is_expired(&self, now: i64) -> (res: Result<bool, BridgeError>)
        requires
            self.locked_at + LOCK_EXPIRY_DURATION <= i64::MAX,
        ensures
            res == Ok::<bool, BridgeError>(now > self.locked_at + LOCK_EXPIRY_DURATION),
    {
        let expiry_time = self.locked_at + LOCK_EXPIRY_DURATION;
        Ok(now > expiry_time)
    }

    /// Seconds left before the lock expires at time `now`, or zero.
    pub fn time_until_expiry(&self, now: i64) -> (res: Result<i64, BridgeError>)
        requires
            self.locked_at + LOCK_EXPIRY_DURATION <= i64::MAX,
            i64::MIN <= self.locked_at + LOCK_EXPIRY_DURATION - now <= i64::MAX,
        ensures
            res == Ok::<i64, BridgeError>(
                if self.locked_at + LOCK_EXPIRY_DURATION - now > 0 { (self.locked_at + LOCK_EXPIRY_DURATION - now) as i64 } else { 0 },
            ),
    {
        let expiry_time = self.locked_at + LOCK_EXPIRY_DURATION;
        let remaining = expiry_time - now;
        Ok(if remaining > 0 { remaining } else { 0 })
    }

    /// Stores a Merkle proof of at most `MAX_MERKLE_PROOF_DEPTH` nodes and its root.
    pub fn set_merkle_proof(&mut self, proof: Vec<[u8; 32]>, root: [u8; 32]) -> (res: Result<(), BridgeError>)
        ensures
            proof@.len() > MAX_MERKLE_PROOF_DEPTH ==> res == Err::<(), BridgeError>(BridgeError::InvalidMerkleProof)
                && *final(self) == *old(self),
            proof@.len() <= MAX_MERKLE_PROOF_DEPTH ==> {
                &&& res is Ok
                &&& final(self).merkle_proof@ == proof@
                &&& final(self).merkle_root == root
                &&& final(self).status == old(self).status
                &&& final(self).validator_signatures@ == old(self).validator_signatures@
                &&& final(self).current_confirmations == old(self).current_confirmations
                &&& final(self).amount == old(self).amount
            },
    {
        if proof.len() > MAX_MERKLE_PROOF_DEPTH {
            return Err(BridgeError::InvalidMerkleProof);
        }
        self.merkle_proof = proof;
        self.merkle_root = root;
        Ok(())
    }

    /// Whether the stored proof leads from `leaf_hash` to the stored root; an empty proof
    /// proves nothing.
    pub fn verify_merkle_proof(&self, leaf_hash: [u8; 32]) -> (r: bool)
        ensures
            r == (self.merkle_proof@.len() > 0 && fold_proof(leaf_hash@, node_views(self.merkle_proof@)) == self.merkle_root@),
    {
        if self.merkle_proof.len() == 0 {
            return false;
        }
        let ghost pv = node_views(self.merkle_proof@);
        let mut computed_hash: [u8; 32] = leaf_hash;
        let mut i: usize = 0;
        assert(pv.skip(0) =~= pv);
        while i < self.merkle_proof.len()
            invariant
                i <= self.merkle_proof@.len(),
                pv == node_views(self.merkle_proof@),
                fold_proof(leaf_hash@, pv) == fold_proof(computed_hash@, pv.skip(i as int)),
            decreases self.merkle_proof.len() - i,
        {
            assert(pv.skip(i as int)[0] == pv[i as int]);
            assert(pv.skip(i as int).drop_first() =~= pv.skip(i + 1));
            computed_hash = CryptographyManager::hash_pair(&computed_hash, &self.merkle_proof[i]);
            i = i + 1;
        }
        assert(pv.skip(self.merkle_proof@.len() as int).len() == 0);
        bytes32_eq(&computed_hash, &self.merkle_root)
    }

    /// Replaces the metadata.
    pub fn update_metadata(&mut self, metadata: LockMetadata) -> (res: Result<(), BridgeError>)
        ensures
            res is Ok,
            final(self).metadata == metadata,
            same_terms(*final(self), *old(self)),
            final(self).status == old(self).status,
            final(self).validator_signatures@ == old(self).validator_signatures@,
            final(self).current_confirmations == old(self).current_confirmations,
    {
        self.metadata = metadata;
        Ok(())
    }

    /// Seconds since the tokens were locked, at time `now`.
    pub fn get_lock_duration(&self, now: i64) -> (res: Result<i64, BridgeError>)
        requires
            i64::MIN <= now - self.locked_at <= i64::MAX,
        ensures
            res == Ok::<i64, BridgeError>((now - self.locked_at) as i64),
    {
        Ok(now - self.locked_at)
    }

    /// Whether the lock is still locked and not expired at time `now`.
    pub fn is_active(&self, now: i64) -> (res: Result<bool, BridgeError>)
        requires
            self.locked_at + LOCK_EXPIRY_DURATION <= i64::MAX,
        ensures
            res == Ok::<bool, BridgeError>(self.status == LockStatus::Locked && !(now > self.locked_at + LOCK_EXPIRY_DURATION)),
    {
        let expired = self.is_expired(now)?;
        Ok(self.status == LockStatus::Locked && !expired)
    }

    /// The fee rate for this lock: the destination chain's base rate less the volume discount.
    pub fn calculate_effective_fee_rate(&self) -> (rate: u64)
        ensures
            rate == (if base_fee_rate(self.destination_chain) >= volume_discount(self.amount) {
                base_fee_rate(self.destination_chain) - volume_discount(self.amount)
            } else {
                0
            }),
    {
        let base_rate = if self.destination_chain == ETHEREUM_CHAIN_ID {
            ETHEREUM_BASE_FEE_RATE
        } else if self.destination_chain == BSC_CHAIN_ID {
            BSC_BASE_FEE_RATE
        } else if self.destination_chain == POLYGON_CHAIN_ID {
            POLYGON_BASE_FEE_RATE
        } else {
            DEFAULT_BASE_FEE_RATE
        };
        let discount = if self.amount >= HIGH_VOLUME_THRESHOLD {
            HIGH_VOLUME_DISCOUNT
        } else if self.amount >= MEDIUM_VOLUME_THRESHOLD {
            MEDIUM_VOLUME_DISCOUNT
        } else {
            0
        };
        base_rate.saturating_sub(discount)
    }

    /// Checks the amount, destination chain and required confirmations of the lock.
    pub fn validate_lock_params(&self) -> (res: Result<(), BridgeError>)
        ensures
            res == (if self.amount == 0 {
                Err::<(), BridgeError>(BridgeError::InvalidAmount)
            } else if self.amount < MIN_LOCK_AMOUNT {
                Err(BridgeError::AmountTooSmall)
            } else if self.amount > MAX_LOCK_AMOUNT {
                Err(BridgeError::AmountTooLarge)
            } else if self.destination_chain == 0 {
                Err(BridgeError::InvalidDestinationChain)
            } else if !(MIN_REQUIRED_CONFIRMATIONS <= self.required_confirmations <= MAX_REQUIRED_CONFIRMATIONS) {
                Err(BridgeError::InvalidConfirmationCount)
            } else {
                Ok(())
            }),
    {
        if self.amount == 0 {
            return Err(BridgeError::InvalidAmount);
        }
        if self.amount < MIN_LOCK_AMOUNT {
            return Err(BridgeError::AmountTooSmall);
        }
        if self.amount > MAX_LOCK_AMOUNT {
            return Err(BridgeError::AmountTooLarge);
        }
        if self.destination_chain == 0 {
            return Err(BridgeError::InvalidDestinationChain);
        }
        if !(self.required_confirmations >= MIN_REQUIRED_CONFIRMATIONS
            && self.required_confirmations <= MAX_REQUIRED_CONFIRMATIONS) {
            return Err(BridgeError::InvalidConfirmationCount);
        }
        Ok(())
    }
}

/// A user's tier by the total amount locked.
#[derive(Clone, Copy, Debug, PartialEq, Eq, Structural)]
pub enum UserTier {
    Bronze,
    Silver,
    Gold,
    Platinum,
}

/// A user's locking history.
#[derive(Clone, Copy, Debug)]
pub struct LockHistory {
    pub user: [u8; 32],
    pub total_locks: u64,
    pub total_amount_locked: u64,
    pub total_fees_paid: u64,
    pub last_lock_at: i64,
    pub average_lock_amount: u64,
    pub bump: u8,
}

/// The tier of a user who locked `total` in all.
pub open spec fn tier_for(total: u64) -> UserTier {
    if total >= PLATINUM_TIER_THRESHOLD {
        UserTier::Platinum
    } else if total >= GOLD_TIER_THRESHOLD {
        UserTier::Gold
    } else if total >= SILVER_TIER_THRESHOLD {
        UserTier::Silver
    } else {
        UserTier::Bronze
    }
}

/// The fee discount of a tier, in basis points.
pub open spec fn tier_discount(tier: UserTier) -> u64 {
    match tier {
        UserTier::Platinum => PLATINUM_FEE_DISCOUNT,
        UserTier::Gold => GOLD_FEE_DISCOUNT,
        UserTier::Silver => SILVER_FEE_DISCOUNT,
        UserTier::Bronze => 0,
    }
}

impl LockHistory {
    /// Starts an empty history for `user`.
    pub fn initialize(&mut self, user: [u8; 32], bump: u8) -> (res: Result<(), BridgeError>)
        ensures
            res is Ok,
            *final(self) == (LockHistory {
                user,
                total_locks: 0,
                total_amount_locked: 0,
                total_fees_paid: 0,
                last_lock_at: 0,
                average_lock_amount: 0,
                bump,
            }),
    {
        self.user = user;
        self.total_locks = 0;
        self.total_amount_locked = 0;
        self.total_fees_paid = 0;
        self.last_lock_at = 0;
        self.average_lock_amount = 0;
        self.bump = bump;
        Ok(())
    }

    /// Adds a lock of `amount` with fee `fee`, made at time `now`, and updates the mean amount.
    pub fn record_lock(&mut self, amount: u64, fee: u64, now: i64) -> (res: Result<(), BridgeError>)
        requires
            old(self).total_locks < u64::MAX,
            old(self).total_amount_locked + amount <= u64::MAX,
            old(self).total_fees_paid + fee <= u64::MAX,
        ensures
            res is Ok,
            final(self).total_locks == old(self).total_locks + 1,
            final(self).total_amount_locked == old(self).total_amount_locked + amount,
            final(self).total_fees_paid == old(self).total_fees_paid + fee,
            final(self).last_lock_at == now,
            final(self).average_lock_amount == final(self).total_amount_locked / final(self).total_locks,
            final(self).user == old(self).user,
            final(self).bump == old(self).bump,
    {
        self.total_locks = self.total_locks + 1;
        self.total_amount_locked = self.total_amount_locked + amount;
        self.total_fees_paid = self.total_fees_paid + fee;
        self.last_lock_at = now;
        self.average_lock_amount = self.total_amount_locked / self.total_locks;
        Ok(())
    }

    /// The user's tier by the total amount locked.
    pub fn get_user_tier(&self) -> (tier: UserTier)
        ensures
            tier == tier_for(self.total_amount_locked),
    {
        if self.total_amount_locked >= PLATINUM_TIER_THRESHOLD {
            UserTier::Platinum
        } else if self.total_amount_locked >= GOLD_TIER_THRESHOLD {
            UserTier::Gold
        } else if self.total_amount_locked >= SILVER_TIER_THRESHOLD {
            UserTier::Silver
        } else {
            UserTier::Bronze
        }
    }

    /// The fee discount of the user's tier, in basis points.
    pub fn get_fee_discount(&self) -> (discount: u64)
        ensures
            discount == tier_discount(tier_for(self.total_amount_locked)),
    {
        match self.get_user_tier() {
            UserTier::Platinum => PLATINUM_FEE_DISCOUNT,
            UserTier::Gold => GOLD_FEE_DISCOUNT,
            UserTier::Silver => SILVER_FEE_DISCOUNT,
            UserTier::Bronze => 0,
        }
    }
}

/// One day of bridge activity.
#[derive(Clone, Copy, Debug, PartialEq, Eq, Structural)]
pub struct DailyStats {
    pub day: i64,
    pub locks: u64,
    pub unlocks: u64,
    pub volume: u64,
    pub fees: u64,
}

impl DailyStats {
    /// Size of a stored daily record in bytes.
    pub const LEN: usize = 40;
}

/// Activity of the whole bridge.
#[derive(Clone, Debug)]
pub struct BridgeStatistics {
    pub total_locks: u64,
    pub total_unlocks: u64,
    pub total_volume_locked: u64,
    pub total_fees_collected: u64,
    pub active_locks: u64,
    pub average_lock_duration: u64,
    pub last_updated: i64,
    pub daily_stats: Vec<DailyStats>,
    pub bump: u8,
}

/// The day, counted from the Unix epoch, that second `now` falls in (rounded towards zero).
pub open spec fn day_of(now: i64) -> int {
    if now >= 0 { now as int / 86400 } else { -((-now) / 86400) }
}

/// Whether some record is for `day`.
pub open spec fn has_day(stats: Seq<DailyStats>, day: int) -> bool {
    exists|i: int| 0 <= i < stats.len() && stats[i].day == day
}

/// The position of the record for `day`.
pub open spec fn day_index(stats: Seq<DailyStats>, day: int) -> int {
    choose|i: int| 0 <= i < stats.len() && stats[i].day == day
}

/// The daily records after counting one lock (of `amount` and `fee`) or one unlock on `day`:
/// the day's record is updated, or a new one is appended, dropping the oldest of thirty.
pub open spec fn stats_after(stats: Seq<DailyStats>, day: int, amount: u64, fee: u64, is_lock: bool) -> Seq<DailyStats> {
    if has_day(stats, day) {
        let i = day_index(stats, day);
        let d = stats[i];
        stats.update(i, if is_lock {
            DailyStats { locks: (d.locks + 1) as u64, volume: (d.volume + amount) as u64, fees: (d.fees + fee) as u64, ..d }
        } else {
            DailyStats { unlocks: (d.unlocks + 1) as u64, ..d }
        })
    } else {
        let fresh = DailyStats {
            day: day as i64,
            locks: if is_lock { 1 } else { 0 },
            unlocks: if is_lock { 0 } else { 1 },
            volume: amount,
            fees: fee,
        };
        let kept = if stats.len() >= MAX_DAILY_STATS { stats.drop_first() } else { stats };
        kept.push(fresh)
    }
}

/// The record for the day can take one more lock or unlock without overflowing.
pub open spec fn day_has_room(stats: Seq<DailyStats>, day: int, amount: u64, fee: u64, is_lock: bool) -> bool {
    has_day(stats, day) ==> {
        let d = stats[day_index(stats, day)];
        if is_lock {
            d.locks < u64::MAX && d.volume + amount <= u64::MAX && d.fees + fee <= u64::MAX
        } else {
            d.unlocks < u64::MAX
        }
    }
}

impl BridgeStatistics {
    /// At most thirty daily records, one per day.
    pub open spec fn well_formed(&self) -> bool {
        &&& self.daily_stats@.len() <= MAX_DAILY_STATS
        &&& forall|i: int, j: int| 0 <= i < j < self.daily_stats@.len() ==> self.daily_stats@[i].day != self.daily_stats@[j].day
    }

    /// Counts one lock or unlock in today's record at time `now`.
    pub fn update_daily_stats(&mut self, amount: u64, fee: u64, is_lock: bool, now: i64) -> (res: Result<(), BridgeError>)
        requires
            old(self).well_formed(),
            day_has_room(old(self).daily_stats@, day_of(now), amount, fee, is_lock),
        ensures
            res is Ok,
            final(self).well_formed(),
            final(self).daily_stats@ == stats_after(old(self).daily_stats@, day_of(now), amount, fee, is_lock),
            final(self).total_locks == old(self).total_locks,
            final(self).total_unlocks == old(self).total_unlocks,
            final(self).total_volume_locked == old(self).total_volume_locked,
            final(self).total_fees_collected == old(self).total_fees_collected,
            final(self).active_locks == old(self).active_locks,
            final(self).average_lock_duration == old(self).average_lock_duration,
            final(self).last_updated == old(self).last_updated,
            final(self).bump == old(self).bump,
    {
        let current_day = now / SECONDS_PER_DAY;
        assert(current_day == day_of(now));
        let mut index: usize = 0;
        let mut found = false;
        while !found && index < self.daily_stats.len()
            invariant
                index <= self.daily_stats@.len(),
                found ==> index < self.daily_stats@.len() && self.daily_stats@[index as int].day == current_day,
                forall|j: int| 0 <= j < index ==> self.daily_stats@[j].day != current_day,
            decreases self.daily_stats@.len() - index + (if found { 0int } else { 1int }),
        {
            if self.daily_stats[index].day == current_day {
                found = true;
            } else {
                index = index + 1;
            }
        }
        let ghost before = self.daily_stats@;
        if found {
            proof {
                assert(has_day(before, current_day as int));
                let k = day_index(before, current_day as int);
                if k != index {
                    assert(before[k].day == current_day && before[index as int].day == current_day);
                }
            }
            let mut d = self.daily_stats[index];
            if is_lock {
                d.locks = d.locks + 1;
                d.volume = d.volume + amount;
                d.fees = d.fees + fee;
            } else {
                d.unlocks = d.unlocks + 1;
            }
            self.daily_stats.set(index, d);
            proof {
                let nv = self.daily_stats@;
                assert forall|a: int, b: int| 0 <= a < b < nv.len() implies nv[a].day != nv[b].day by {
                    assert(nv[a].day == before[a].day && nv[b].day == before[b].day);
                }
            }
        } else {
            assert(!has_day(before, current_day as int));
            let new_stats = DailyStats {
                day: current_day,
                locks: if is_lock { 1 } else { 0 },
                unlocks: if is_lock { 0 } else { 1 },
                volume: amount,
                fees: fee,
            };
            if self.daily_stats.len() >= MAX_DAILY_STATS {
                self.daily_stats.remove(0);
            }
            let ghost kept = self.daily_stats@;
            self.daily_stats.push(new_stats);
            proof {
                let nv = self.daily_stats@;
                assert forall|a: int, b: int| 0 <= a < b < nv.len() implies nv[a].day != nv[b].day by {
                    if before.len() >= MAX_DAILY_STATS {
                        assert(nv[a] == before[a + 1]);
                        if b < nv.len() - 1 {
                            assert(nv[b] == before[b + 1]);
                        }
                    } else {
                        assert(nv[a] == before[a]);
                        if b < nv.len() - 1 {
                            assert(nv[b] == before[b]);
                        }
                    }
                }
            }
        }
        Ok(())
    }

    /// Counts a lock of `amount` with fee `fee` made at time `now`.
    pub fn record_lock(&mut self, amount: u64, fee: u64, now: i64) -> (res: Result<(), BridgeError>)
        requires
            old(self).well_formed(),
            old(self).total_locks < u64::MAX,
            old(self).total_volume_locked + amount <= u64::MAX,
            old(self).total_fees_collected + fee <= u64::MAX,
            old(self).active_locks < u64::MAX,
            day_has_room(old(self).daily_stats@, day_of(now), amount, fee, true),
        ensures
            res is Ok,
            final(self).well_formed(),
            final(self).total_locks == old(self).total_locks + 1,
            final(self).total_volume_locked == old(self).total_volume_locked + amount,
            final(self).total_fees_collected == old(self).total_fees_collected + fee,
            final(self).active_locks == old(self).active_locks + 1,
            final(self).last_updated == now,
            final(self).daily_stats@ == stats_after(old(self).daily_stats@, day_of(now), amount, fee, true),
            final(self).total_unlocks == old(self).total_unlocks,
            final(self).average_lock_duration == old(self).average_lock_duration,
    {
        self.total_locks = self.total_locks + 1;
        self.total_volume_locked = self.total_volume_locked + amount;
        self.total_fees_collected = self.total_fees_collected + fee;
        self.active_locks = self.active_locks + 1;
        self.last_updated = now;
        self.update_daily_stats(amount, fee, true, now)?;
        Ok(())
    }

    /// Counts an unlock of a lock held for `duration` seconds, at time `now`, and updates the
    /// mean lock duration.
    pub fn record_unlock(&mut self, duration: u64, now: i64) -> (res: Result<(), BridgeError>)
        requires
            old(self).well_formed(),
            old(self).total_unlocks < u64::MAX,
            old(self).average_lock_duration * old(self).total_unlocks + duration <= u64::MAX,
            day_has_room(old(self).daily_stats@, day_of(now), 0, 0, false),
        ensures
            res is Ok,
            final(self).well_formed(),
            final(self).total_unlocks == old(self).total_unlocks + 1,
            final(self).active_locks == (if old(self).active_locks == 0 { 0 } else { old(self).active_locks - 1 }),
            final(self).average_lock_duration == (old(self).average_lock_duration * old(self).total_unlocks + duration)
                / (old(self).total_unlocks + 1),
            final(self).last_updated == now,
            final(self).daily_stats@ == stats_after(old(self).daily_stats@, day_of(now), 0, 0, false),
            final(self).total_locks == old(self).total_locks,
            final(self).total_volume_locked == old(self).total_volume_locked,
            final(self).total_fees_collected == old(self).total_fees_collected,
    {
        self.total_unlocks = self.total_unlocks + 1;
        self.active_locks = self.active_locks.saturating_sub(1);
        let total_duration = self.average_lock_duration * (self.total_unlocks - 1) + duration;
        self.average_lock_duration = total_duration / self.total_unlocks;
        self.last_updated = now;
        self.update_daily_stats(0, 0, false, now)?;
        Ok(())
    }
}

} // verus!
