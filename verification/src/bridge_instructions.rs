//! Bridge operations: supported tokens, fees, request validation and cross-chain proof data.
use vstd::prelude::*;

use crate::cryptography::{padded_relayer_key, signature_outcome, CryptographyManager};
use crate::errors::BridgeError;
use crate::hashing::{append_bytes, keccak256, le_bytes, push_le_bytes, spec_keccak256};
use crate::merkle::{bytes32_eq, fold_proof, node_views};

verus! {

/// Mint of the $FIN token.
pub const FIN_MINT_PUBKEY: [u8; 32] = [70, 73, 78, 45, 109, 105, 110, 116, 0, 0, 0, 0, 0, 0, 0, 0, 0, 0, 0, 0, 0, 0, 0, 0, 0, 0, 0, 0, 0, 0, 0, 0];
/// Mint of the staked $sFIN token.
pub const SFIN_MINT_PUBKEY: [u8; 32] = [115, 70, 73, 78, 45, 109, 105, 110, 116, 0, 0, 0, 0, 0, 0, 0, 0, 0, 0, 0, 0, 0, 0, 0, 0, 0, 0, 0, 0, 0, 0, 0];
/// Mint of the $USDfin stablecoin.
pub const USDFIN_MINT_PUBKEY: [u8; 32] = [85, 83, 68, 102, 105, 110, 45, 109, 105, 110, 116, 0, 0, 0, 0, 0, 0, 0, 0, 0, 0, 0, 0, 0, 0, 0, 0, 0, 0, 0, 0, 0];
/// Mint of the staked $sUSDfin stablecoin.
pub const SUSDFIN_MINT_PUBKEY: [u8; 32] = [115, 85, 83, 68, 102, 105, 110, 45, 109, 105, 110, 116, 0, 0, 0, 0, 0, 0, 0, 0, 0, 0, 0, 0, 0, 0, 0, 0, 0, 0, 0, 0];
/// Denominator of fee rates (basis points).
pub const FEE_DENOMINATOR: u64 = 10000;
/// Smallest fee charged.
pub const MIN_BRIDGE_FEE: u64 = 1000;
/// Share of fees paid to validators, in percent.
pub const VALIDATOR_REWARD_PERCENTAGE: u64 = 50;
/// Chains the bridge connects to.
pub const SUPPORTED_CHAIN_IDS: [u64; 6] = [1, 56, 137, 43114, 42161, 101];
/// Smallest $FIN transfer.
pub const MIN_BRIDGE_AMOUNT_FIN: u64 = 1000;
/// Smallest $sFIN transfer.
pub const MIN_BRIDGE_AMOUNT_SFIN: u64 = 1000;
/// Smallest $USDfin transfer.
pub const MIN_BRIDGE_AMOUNT_USDFIN: u64 = 1000;
/// Smallest $sUSDfin transfer.
pub const MIN_BRIDGE_AMOUNT_SUSDFIN: u64 = 1000;
/// Smallest transfer of another token.
pub const MIN_BRIDGE_AMOUNT_CUSTOM: u64 = 1000000;
/// Largest $FIN transfer.
pub const MAX_BRIDGE_AMOUNT_FIN: u64 = 1000000000000000;
/// Largest $sFIN transfer.
pub const MAX_BRIDGE_AMOUNT_SFIN: u64 = 1000000000000000;
/// Largest $USDfin transfer.
pub const MAX_BRIDGE_AMOUNT_USDFIN: u64 = 1000000000000;
/// Largest $sUSDfin transfer.
pub const MAX_BRIDGE_AMOUNT_SUSDFIN: u64 = 1000000000000;
/// Largest transfer of another token.
pub const MAX_BRIDGE_AMOUNT_CUSTOM: u64 = 1000000000000;
/// Largest accepted jump of a nonce.
pub const MAX_NONCE_GAP: u64 = 1000;
/// How long a validator signature stays valid, in seconds.
pub const SIGNATURE_VALIDITY_PERIOD: i64 = 86400;
/// Keys allowed to pause the bridge in an emergency.
pub const EMERGENCY_ADMINS: [[u8; 32]; 2] = [[102, 105, 110, 111, 118, 97, 45, 101, 109, 101, 114, 103, 101, 110, 99, 121, 45, 97, 100, 109, 105, 110, 45, 49, 0, 0, 0, 0, 0, 0, 0, 0], [102, 105, 110, 111, 118, 97, 45, 101, 109, 101, 114, 103, 101, 110, 99, 121, 45, 97, 100, 109, 105, 110, 45, 50, 0, 0, 0, 0, 0, 0, 0, 0]];
/// Version of the bridge program.
pub const BRIDGE_VERSION: u8 = 1;

/// Tokens the bridge carries.
#[derive(Clone, Copy, Debug)]
pub enum TokenType {
    Fin,
    SFin,
    UsdFin,
    SUsdFin,
    Custom([u8; 32]),
}

/// Which operations an emergency pause stops.
#[derive(Clone, Copy, Debug, PartialEq, Eq, Structural)]
pub enum PauseType {
    All,
    Deposits,
    Withdrawals,
    Validator,
}

/// Where a bridge operation stands.
#[derive(Clone, Copy, Debug, PartialEq, Eq, Structural)]
pub enum OperationStatus {
    Pending,
    Confirmed,
    Failed,
    Cancelled,
}

/// A validator's signature over a bridge message.
#[derive(Clone, Copy, Debug)]
pub struct ValidatorSignature {
    pub validator: [u8; 32],
    pub signature: [u8; 64],
    pub recovery_id: u8,
    pub timestamp: i64,
}

/// The requests the bridge program accepts.
#[derive(Clone, Debug)]
pub enum BridgeInstruction {
    InitializeBridge { chain_id: u64, initial_validators: Vec<[u8; 32]>, threshold: u8, fee_rate: u64 },
    LockTokens { amount: u64, destination_chain: u64, destination_address: [u8; 32], token_type: TokenType },
    UnlockTokens {
        amount: u64,
        recipient: [u8; 32],
        transaction_hash: [u8; 32],
        merkle_proof: Vec<[u8; 32]>,
        validator_signatures: Vec<ValidatorSignature>,
    },
    ValidateProof { proof_data: ProofData, validator_signatures: Vec<ValidatorSignature> },
    EmergencyPause { pause_type: PauseType, reason: String },
    UpdateValidators { new_validators: Vec<[u8; 32]>, new_threshold: u8 },
    SetFeeRate { new_fee_rate: u64 },
    WithdrawFees { amount: u64, recipient: [u8; 32] },
    Resume { resume_type: PauseType },
}

/// A proof that a transfer happened on another chain.
#[derive(Clone, Debug)]
pub struct ProofData {
    pub transaction_hash: [u8; 32],
    pub block_hash: [u8; 32],
    pub merkle_root: [u8; 32],
    pub merkle_proof: Vec<[u8; 32]>,
    pub chain_id: u64,
    pub amount: u64,
    pub recipient: [u8; 32],
    pub token_type: TokenType,
    pub nonce: u64,
}

/// The outcome of a bridge operation.
#[derive(Clone, Copy, Debug)]
pub struct BridgeOperationResult {
    pub operation_id: u64,
    pub transaction_hash: [u8; 32],
    pub amount: u64,
    pub fee: u64,
    pub timestamp: i64,
    pub status: OperationStatus,
}

/// Fee arithmetic of the bridge.
pub struct FeeCalculator;

/// Checks on bridge requests.
pub struct BridgeValidator;

/// The mint of a token.
pub open spec fn mint_of(token: TokenType) -> [u8; 32] {
    match token {
        TokenType::Fin => FIN_MINT_PUBKEY,
        TokenType::SFin => SFIN_MINT_PUBKEY,
        TokenType::UsdFin => USDFIN_MINT_PUBKEY,
        TokenType::SUsdFin => SUSDFIN_MINT_PUBKEY,
        TokenType::Custom(mint) => mint,
    }
}

/// The position of a token's kind in the list of kinds.
pub open spec fn token_tag(token: TokenType) -> u8 {
    match token {
        TokenType::Fin => 0,
        TokenType::SFin => 1,
        TokenType::UsdFin => 2,
        TokenType::SUsdFin => 3,
        TokenType::Custom(_) => 4,
    }
}

impl TokenType {
    /// The token's mint.
    pub fn get_mint_address(&self) -> (res: Result<[u8; 32], BridgeError>)
        ensures
            res == Ok::<[u8; 32], BridgeError>(mint_of(*self)),
    {
        match self {
            TokenType::Fin => Ok(FIN_MINT_PUBKEY),
            TokenType::SFin => Ok(SFIN_MINT_PUBKEY),
            TokenType::UsdFin => Ok(USDFIN_MINT_PUBKEY),
            TokenType::SUsdFin => Ok(SUSDFIN_MINT_PUBKEY),
            TokenType::Custom(mint) => Ok(*mint),
        }
    }

    /// Whether the token is one of the bridge's own; other tokens need more checks.
    pub fn is_supported(&self) -> (r: bool)
        ensures
            r == !(*self is Custom),
    {
        match self {
            TokenType::Custom(_) => false,
            _ => true,
        }
    }

    /// The token's decimals: 9 for $FIN, $sFIN and other tokens, 6 for the stablecoins.
    pub fn get_decimals(&self) -> (d: u8)
        ensures
            d == (match *self {
                TokenType::UsdFin => 6u8,
                TokenType::SUsdFin => 6u8,
                _ => 9u8,
            }),
    {
        match self {
            TokenType::Fin => 9,
            TokenType::SFin => 9,
            TokenType::UsdFin => 6,
            TokenType::SUsdFin => 6,
            TokenType::Custom(_) => 9,
        }
    }

    /// The position of the token's kind in the list of kinds.
    pub fn tag(&self) -> (t: u8)
        ensures
            t == token_tag(*self),
    {
        match self {
            TokenType::Fin => 0,
            TokenType::SFin => 1,
            TokenType::UsdFin => 2,
            TokenType::SUsdFin => 3,
            TokenType::Custom(_) => 4,
        }
    }
}

/// The fee on `amount` at `fee_rate` basis points, at least the minimum fee; `None` when the
/// product overflows.
pub open spec fn spec_rate_fee(amount: u64, fee_rate: u64) -> Option<u64> {
    if amount * fee_rate > u64::MAX {
        None
    } else {
        let fee = amount * fee_rate / (FEE_DENOMINATOR as int);
        Some(if fee > MIN_BRIDGE_FEE { fee as u64 } else { MIN_BRIDGE_FEE })
    }
}

impl FeeCalculator {
    /// The fee on locking `amount` at `fee_rate` basis points, at least the minimum fee.
    pub fn calculate_lock_fee(amount: u64, fee_rate: u64) -> (res: Result<u64, BridgeError>)
        ensures
            res == (match spec_rate_fee(amount, fee_rate) {
                Some(f) => Ok::<u64, BridgeError>(f),
                None => Err(BridgeError::MathOverflow),
            }),
    {
        let product = match amount.checked_mul(fee_rate) {
            Some(p) => p,
            None => { return Err(BridgeError::MathOverflow); },
        };
        let fee = product / FEE_DENOMINATOR;
        Ok(if fee > MIN_BRIDGE_FEE { fee } else { MIN_BRIDGE_FEE })
    }

    /// The fee on unlocking `amount` at `fee_rate` basis points, at least the minimum fee.
    pub fn calculate_unlock_fee(amount: u64, fee_rate: u64) -> (res: Result<u64, BridgeError>)
        ensures
            res == (match spec_rate_fee(amount, fee_rate) {
                Some(f) => Ok::<u64, BridgeError>(f),
                None => Err(BridgeError::MathOverflow),
            }),
    {
        let product = match amount.checked_mul(fee_rate) {
            Some(p) => p,
            None => { return Err(BridgeError::MathOverflow); },
        };
        let fee = product / FEE_DENOMINATOR;
        Ok(if fee > MIN_BRIDGE_FEE { fee } else { MIN_BRIDGE_FEE })
    }

    /// Each validator's share of the validators' half of a fee; nothing without validators.
    pub fn calculate_validator_reward(total_fee: u64, validator_count: u8) -> (res: Result<u64, BridgeError>)
        ensures
            validator_count == 0 ==> res == Ok::<u64, BridgeError>(0),
            validator_count > 0 && total_fee * VALIDATOR_REWARD_PERCENTAGE > u64::MAX ==> res == Err::<u64, BridgeError>(
                BridgeError::MathOverflow,
            ),
            validator_count > 0 && total_fee * VALIDATOR_REWARD_PERCENTAGE <= u64::MAX ==> res == Ok::<u64, BridgeError>(
                ((total_fee * VALIDATOR_REWARD_PERCENTAGE / 100) / (validator_count as int)) as u64,
            ),
    {
        if validator_count == 0 {
            return Ok(0);
        }
        let product = match total_fee.checked_mul(VALIDATOR_REWARD_PERCENTAGE) {
            Some(p) => p,
            None => { return Err(BridgeError::MathOverflow); },
        };
        let validator_portion = product / 100;
        Ok(validator_portion / validator_count as u64)
    }
}

/// The least amount of a token that may be bridged.
pub open spec fn min_bridge_amount(token: TokenType) -> u64 {
    match token {
        TokenType::Fin => MIN_BRIDGE_AMOUNT_FIN,
        TokenType::SFin => MIN_BRIDGE_AMOUNT_SFIN,
        TokenType::UsdFin => MIN_BRIDGE_AMOUNT_USDFIN,
        TokenType::SUsdFin => MIN_BRIDGE_AMOUNT_SUSDFIN,
        TokenType::Custom(_) => MIN_BRIDGE_AMOUNT_CUSTOM,
    }
}

/// The most of a token that may be bridged at once.
pub open spec fn max_bridge_amount(token: TokenType) -> u64 {
    match token {
        TokenType::Fin => MAX_BRIDGE_AMOUNT_FIN,
        TokenType::SFin => MAX_BRIDGE_AMOUNT_SFIN,
        TokenType::UsdFin => MAX_BRIDGE_AMOUNT_USDFIN,
        TokenType::SUsdFin => MAX_BRIDGE_AMOUNT_SUSDFIN,
        TokenType::Custom(_) => MAX_BRIDGE_AMOUNT_CUSTOM,
    }
}

/// The fewest signatures out of `validator_count` that a threshold may ask for: 51%, rounded up.
pub open spec fn min_threshold(validator_count: u8) -> int {
    (validator_count * 51 + 99) / 100
}

impl BridgeValidator {
    /// Checks that the chain is one the bridge connects to.
    pub fn validate_chain_id(chain_id: u64) -> (res: Result<(), BridgeError>)
        ensures
            res == (if SUPPORTED_CHAIN_IDS@.contains(chain_id) {
                Ok::<(), BridgeError>(())
            } else {
                Err(BridgeError::UnsupportedChain)
            }),
    {
        let ids: [u64; 6] = SUPPORTED_CHAIN_IDS;
        let mut i: usize = 0;
        while i < 6
            invariant
                i <= 6,
                ids@ == SUPPORTED_CHAIN_IDS@,
                ids@.len() == 6,
                forall|j: int| 0 <= j < i ==> ids@[j] != chain_id,
            decreases 6 - i,
        {
            if ids[i] == chain_id {
                assert(ids@[i as int] == chain_id);
                return Ok(());
            }
            i = i + 1;
        }
        Err(BridgeError::UnsupportedChain)
    }

    /// Checks that a transfer amount is positive and within the token's limits.
    pub fn validate_amount(amount: u64, token_type: &TokenType) -> (res: Result<(), BridgeError>)
        ensures
            res == (if amount == 0 {
                Err::<(), BridgeError>(BridgeError::InvalidAmount)
            } else if amount < min_bridge_amount(*token_type) {
                Err(BridgeError::AmountTooSmall)
            } else if amount > max_bridge_amount(*token_type) {
                Err(BridgeError::AmountTooLarge)
            } else {
                Ok(())
            }),
    {
        if amount == 0 {
            return Err(BridgeError::InvalidAmount);
        }
        let min_amount = match token_type {
            TokenType::Fin => MIN_BRIDGE_AMOUNT_FIN,
            TokenType::SFin => MIN_BRIDGE_AMOUNT_SFIN,
            TokenType::UsdFin => MIN_BRIDGE_AMOUNT_USDFIN,
            TokenType::SUsdFin => MIN_BRIDGE_AMOUNT_SUSDFIN,
            TokenType::Custom(_) => MIN_BRIDGE_AMOUNT_CUSTOM,
        };
        if amount < min_amount {
            return Err(BridgeError::AmountTooSmall);
        }
        let max_amount = match token_type {
            TokenType::Fin => MAX_BRIDGE_AMOUNT_FIN,
            TokenType::SFin => MAX_BRIDGE_AMOUNT_SFIN,
            TokenType::UsdFin => MAX_BRIDGE_AMOUNT_USDFIN,
            TokenType::SUsdFin => MAX_BRIDGE_AMOUNT_SUSDFIN,
            TokenType::Custom(_) => MAX_BRIDGE_AMOUNT_CUSTOM,
        };
        if amount > max_amount {
            return Err(BridgeError::AmountTooLarge);
        }
        Ok(())
    }

    /// Checks a signature threshold: positive, at most the number of validators and at least
    /// 51% of them, rounded up.
    pub fn validate_validator_threshold(validator_count: u8, threshold: u8) -> (res: Result<(), BridgeError>)
        ensures
            res == (if threshold == 0 {
                Err::<(), BridgeError>(BridgeError::InvalidThreshold)
            } else if threshold > validator_count {
                Err(BridgeError::ThresholdTooHigh)
            } else if threshold < min_threshold(validator_count) {
                Err(BridgeError::ThresholdTooLow)
            } else {
                Ok(())
            }),
    {
        if threshold == 0 {
            return Err(BridgeError::InvalidThreshold);
        }
        if threshold > validator_count {
            return Err(BridgeError::ThresholdTooHigh);
        }
        let min = (validator_count as u16 * 51 + 99) / 100;
        if (threshold as u16) < min {
            return Err(BridgeError::ThresholdTooLow);
        }
        Ok(())
    }

    /// Checks that a nonce follows the last one by at most `MAX_NONCE_GAP`.
    pub fn validate_nonce(nonce: u64, last_nonce: u64) -> (res: Result<(), BridgeError>)
        requires
            nonce > last_nonce ==> last_nonce + MAX_NONCE_GAP <= u64::MAX,
        ensures
            res == (if nonce <= last_nonce {
                Err::<(), BridgeError>(BridgeError::InvalidNonce)
            } else if nonce > last_nonce + MAX_NONCE_GAP {
                Err(BridgeError::NonceTooHigh)
            } else {
                Ok(())
            }),
    {
        if nonce <= last_nonce {
            return Err(BridgeError::InvalidNonce);
        }
        if nonce > last_nonce + MAX_NONCE_GAP {
            return Err(BridgeError::NonceTooHigh);
        }
        Ok(())
    }
}

/// What checking a bridge signature against `validator_pubkey` at time `now` gives: another
/// validator's or an expired signature is not valid; otherwise the secp256k1 signature over the
/// Keccak-256 hash of the message must recover the validator's key (padded to 64 bytes).
pub open spec fn signature_check(s: ValidatorSignature, message: Seq<u8>, validator_pubkey: [u8; 32], now: i64) -> Result<bool, BridgeError> {
    if s.validator != validator_pubkey {
        Ok(false)
    } else if now - s.timestamp > SIGNATURE_VALIDITY_PERIOD {
        Ok(false)
    } else {
        signature_outcome(spec_keccak256(message)@, s.signature@, s.recovery_id, padded_relayer_key(validator_pubkey@))
    }
}

impl ValidatorSignature {
    /// A signature by `validator` made at time `now`.
    pub fn new(validator: [u8; 32], signature: [u8; 64], recovery_id: u8, now: i64) -> (s: Self)
        ensures
            s == (ValidatorSignature { validator, signature, recovery_id, timestamp: now }),
    {
        ValidatorSignature { validator, signature, recovery_id, timestamp: now }
    }

    /// Checks the signature against `validator_pubkey` over `message` at time `now`.
    pub fn verify(&self, message: &[u8], validator_pubkey: &[u8; 32], now: i64) -> (res: Result<bool, BridgeError>)
        requires
            self.validator == *validator_pubkey ==> i64::MIN <= now - self.timestamp <= i64::MAX,
        ensures
            res == signature_check(*self, message@, *validator_pubkey, now),
    {
        if !bytes32_eq(&self.validator, validator_pubkey) {
            return Ok(false);
        }
        if now - self.timestamp > SIGNATURE_VALIDITY_PERIOD {
            return Ok(false);
        }
        let message_hash = keccak256(message);
        let mut padded: [u8; 64] = [0u8; 64];
        let mut j: usize = 0;
        while j < 32
            invariant
                j <= 32,
                padded@.len() == 64,
                forall|m: int| 0 <= m < j ==> padded@[m] == validator_pubkey@[m],
                forall|m: int| 32 <= m < 64 ==> padded@[m] == 0u8,
            decreases 32 - j,
        {
            padded[j] = validator_pubkey[j];
            j = j + 1;
        }
        assert(padded@ =~= padded_relayer_key(validator_pubkey@));
        CryptographyManager::verify_secp256k1_signature(&message_hash, &self.signature, &self.recovery_id, &padded)
    }
}

/// Counting valid signatures in order, from distinct validators of the set, until the
/// threshold is reached: the count, the validators counted and whether counting stopped; the
/// first failed signature check ends the count with its error.
pub open spec fn signature_tally(
    sigs: Seq<ValidatorSignature>,
    validators: Seq<[u8; 32]>,
    threshold: u8,
    message: Seq<u8>,
    now: i64,
) -> Result<(u8, Set<[u8; 32]>, bool), BridgeError>
    decreases sigs.len(),
{
    if sigs.len() == 0 {
        Ok((0u8, Set::empty(), false))
    } else {
        match signature_tally(sigs.drop_last(), validators, threshold, message, now) {
            Err(e) => Err(e),
            Ok((count, used, stopped)) => {
                let s = sigs.last();
                if stopped {
                    Ok((count, used, true))
                } else if !validators.contains(s.validator) || used.contains(s.validator) {
                    Ok((count, used, false))
                } else {
                    match signature_check(s, message, s.validator, now) {
                        Err(e) => Err(e),
                        Ok(true) => Ok(((count + 1) as u8, used.insert(s.validator), count + 1 >= threshold)),
                        Ok(false) => Ok((count, used, count >= threshold)),
                    }
                }
            },
        }
    }
}

/// Once the count has failed or stopped, later signatures change nothing.
pub proof fn lemma_signature_tally_settled(
    sigs: Seq<ValidatorSignature>,
    validators: Seq<[u8; 32]>,
    threshold: u8,
    message: Seq<u8>,
    now: i64,
    n: int,
)
    requires
        0 <= n <= sigs.len(),
        match signature_tally(sigs.take(n), validators, threshold, message, now) {
            Err(_) => true,
            Ok((_, _, stopped)) => stopped,
        },
    ensures
        signature_tally(sigs, validators, threshold, message, now) == signature_tally(sigs.take(n), validators, threshold, message, now),
    decreases sigs.len() - n,
{
    if n < sigs.len() {
        assert(sigs.take(n + 1).drop_last() =~= sigs.take(n));
        lemma_signature_tally_settled(sigs, validators, threshold, message, now, n + 1);
    } else {
        assert(sigs.take(n) =~= sigs);
    }
}

/// Every signature's timestamp is close enough to `now` for their difference to be an `i64`.
pub open spec fn bridge_timestamps_in_range(sigs: Seq<ValidatorSignature>, now: i64) -> bool {
    forall|i: int| 0 <= i < sigs.len() ==> i64::MIN <= now - (#[trigger] sigs[i]).timestamp <= i64::MAX
}

/// Whether `key` is in `keys`.
fn contains_key(keys: &[[u8; 32]], key: &[u8; 32]) -> (r: bool)
    ensures
        r == keys@.contains(*key),
{
    let mut i: usize = 0;
    while i < keys.len()
        invariant
            i <= keys@.len(),
            forall|j: int| 0 <= j < i ==> keys@[j] != *key,
        decreases keys.len() - i,
    {
        if bytes32_eq(&keys[i], key) {
            assert(keys@[i as int] == *key);
            return true;
        }
        i = i + 1;
    }
    false
}

impl BridgeValidator {
    /// Checks that at least `threshold` distinct validators of the set validly signed
    /// `message`; signatures are checked in order until the threshold is reached.
    pub fn validate_signatures(
        signatures: &[ValidatorSignature],
        validators: &[[u8; 32]],
        threshold: u8,
        message: &[u8],
        now: i64,
    ) -> (res: Result<(), BridgeError>)
        requires
            bridge_timestamps_in_range(signatures@, now),
        ensures
            signatures@.len() < threshold ==> res == Err::<(), BridgeError>(BridgeError::InsufficientSignatures),
            signatures@.len() >= threshold ==> res == (match signature_tally(signatures@, validators@, threshold, message@, now) {
                Err(e) => Err::<(), BridgeError>(e),
                Ok((count, _, _)) => if count < threshold {
                    Err(BridgeError::InsufficientValidSignatures)
                } else {
                    Ok(())
                },
            }),
    {
        if signatures.len() < threshold as usize {
            return Err(BridgeError::InsufficientSignatures);
        }
        let mut valid_signatures: u8 = 0;
        let mut used_validators: Vec<[u8; 32]> = Vec::new();
        let mut stopped = false;
        let mut i: usize = 0;
        proof {
            crate::seq_facts::lemma_empty_to_set::<[u8; 32]>();
            assert(signatures@.take(0) =~= Seq::<ValidatorSignature>::empty());
        }
        while i < signatures.len() && !stopped
            invariant
                i <= signatures@.len(),
                signatures@.len() >= threshold,
                bridge_timestamps_in_range(signatures@, now),
                signature_tally(signatures@.take(i as int), validators@, threshold, message@, now)
                    == Ok::<(u8, Set<[u8; 32]>, bool), BridgeError>((valid_signatures, used_validators@.to_set(), stopped)),
                !stopped ==> (valid_signatures < threshold || valid_signatures == 0),
            decreases signatures.len() - i,
        {
            let s = signatures[i];
            proof {
                assert(signatures@.take(i + 1).drop_last() =~= signatures@.take(i as int));
                assert(signatures@.take(i + 1).last() == s);
            }
            if contains_key(validators, &s.validator) && !contains_key(used_validators.as_slice(), &s.validator) {
                proof {
                    assert(i64::MIN <= now - signatures@[i as int].timestamp <= i64::MAX);
                }
                let ok = match s.verify(message, &s.validator, now) {
                    Ok(b) => b,
                    Err(e) => {
                        proof {
                            lemma_signature_tally_settled(signatures@, validators@, threshold, message@, now, i + 1);
                        }
                        return Err(e);
                    },
                };
                if ok {
                    proof {
                        crate::seq_facts::lemma_push_to_set(used_validators@, s.validator);
                    }
                    valid_signatures = valid_signatures + 1;
                    used_validators.push(s.validator);
                }
                if valid_signatures >= threshold {
                    stopped = true;
                }
            }
            i = i + 1;
        }
        proof {
            if stopped {
                lemma_signature_tally_settled(signatures@, validators@, threshold, message@, now, i as int);
            } else {
                assert(signatures@.take(i as int) =~= signatures@);
            }
        }
        if valid_signatures < threshold {
            return Err(BridgeError::InsufficientValidSignatures);
        }
        Ok(())
    }
}

/// The bytes hashed to identify a proof.
pub open spec fn proof_message(p: ProofData) -> Seq<u8> {
    p.transaction_hash@ + p.block_hash@ + p.merkle_root@ + le_bytes(p.chain_id, 8) + le_bytes(p.amount, 8) + p.recipient@
        + le_bytes(token_tag(p.token_type) as u64, 1) + le_bytes(p.nonce, 8)
}

impl ProofData {
    /// A proof with the given fields.
    pub fn new(
        transaction_hash: [u8; 32],
        block_hash: [u8; 32],
        merkle_root: [u8; 32],
        merkle_proof: Vec<[u8; 32]>,
        chain_id: u64,
        amount: u64,
        recipient: [u8; 32],
        token_type: TokenType,
        nonce: u64,
    ) -> (p: Self)
        ensures
            p.transaction_hash == transaction_hash,
            p.block_hash == block_hash,
            p.merkle_root == merkle_root,
            p.merkle_proof@ == merkle_proof@,
            p.chain_id == chain_id,
            p.amount == amount,
            p.recipient == recipient,
            p.token_type == token_type,
            p.nonce == nonce,
    {
        ProofData { transaction_hash, block_hash, merkle_root, merkle_proof, chain_id, amount, recipient, token_type, nonce }
    }

    /// The Keccak-256 hash of the proof's fields (the token by the position of its kind).
    pub fn hash(&self) -> (res: Result<[u8; 32], BridgeError>)
        ensures
            res == Ok::<[u8; 32], BridgeError>(spec_keccak256(proof_message(*self))),
    {
        let mut data: Vec<u8> = Vec::new();
        append_bytes(&mut data, &self.transaction_hash);
        append_bytes(&mut data, &self.block_hash);
        append_bytes(&mut data, &self.merkle_root);
        push_le_bytes(&mut data, self.chain_id, 8);
        push_le_bytes(&mut data, self.amount, 8);
        append_bytes(&mut data, &self.recipient);
        push_le_bytes(&mut data, self.token_type.tag() as u64, 1);
        push_le_bytes(&mut data, self.nonce, 8);
        assert(data@ =~= proof_message(*self));
        Ok(keccak256(data.as_slice()))
    }

    /// Whether the proof leads from the transaction hash to the Merkle root (an empty proof
    /// when the hash is the root).
    pub fn verify_merkle_proof(&self) -> (res: Result<bool, BridgeError>)
        ensures
            res == Ok::<bool, BridgeError>(fold_proof(self.transaction_hash@, node_views(self.merkle_proof@)) == self.merkle_root@),
    {
        let ghost pv = node_views(self.merkle_proof@);
        let mut computed_hash: [u8; 32] = self.transaction_hash;
        let mut i: usize = 0;
        assert(pv.skip(0) =~= pv);
        while i < self.merkle_proof.len()
            invariant
                i <= self.merkle_proof@.len(),
                pv == node_views(self.merkle_proof@),
                fold_proof(self.transaction_hash@, pv) == fold_proof(computed_hash@, pv.skip(i as int)),
            decreases self.merkle_proof.len() - i,
        {
            assert(pv.skip(i as int)[0] == pv[i as int]);
            assert(pv.skip(i as int).drop_first() =~= pv.skip(i + 1));
            computed_hash = CryptographyManager::hash_pair(&computed_hash, &self.merkle_proof[i]);
            i = i + 1;
        }
        assert(pv.skip(self.merkle_proof@.len() as int).len() == 0);
        Ok(bytes32_eq(&computed_hash, &self.merkle_root))
    }
}

} // verus!
