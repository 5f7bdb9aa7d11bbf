//! Ed25519 multi-signature checks of bridge validators over relayed messages.
use vstd::prelude::*;

use crate::errors::BridgeError;
use crate::hashing::{sha256_of_parts, spec_sha256};
use crate::merkle::{bytes32_eq, vec_views};
use crate::seq_facts::{lemma_empty_to_set, lemma_push_to_set};

verus! {

/// Most validator signatures checked in one transaction.
pub const MAX_VALIDATORS_PER_TX: usize = 10;
/// Fewest signatures a multi-signature needs.
pub const MIN_SIGNATURE_THRESHOLD: u8 = 2;
/// Oldest accepted signature, in slots.
pub const MAX_SIGNATURE_AGE: u64 = 1200;
/// Oldest accepted signature, in seconds (a slot lasts about 400 ms).
pub const MAX_SIGNATURE_AGE_SECONDS: i64 = 480;
/// Size of an Ed25519 signature in bytes.
pub const ED25519_SIGNATURE_SIZE: usize = 64;
/// Size of an Ed25519 public key in bytes.
pub const ED25519_PUBKEY_SIZE: usize = 32;
/// Size of a message hash in bytes.
pub const MESSAGE_HASH_SIZE: usize = 32;
/// Longest message accepted for Ed25519 verification.
pub const MAX_SIGNED_MESSAGE_LEN: usize = 1024;
/// Size of the header of an Ed25519 program instruction with one signature.
pub const ED25519_HEADER_SIZE: usize = 14;
/// Widest accepted gap between a signature's timestamp and the current time, in seconds.
pub const MAX_SIGNATURE_CLOCK_SKEW: i64 = 3600;

/// Domain separator hashed before every signed bridge message (`FINOVA_BRIDGE_SIGNATURE`).
pub const BRIDGE_SIGNATURE_DOMAIN: [u8; 23] = [
    70, 73, 78, 79, 86, 65, 95, 66, 82, 73, 68, 71, 69, 95, 83, 73, 71, 78, 65, 84, 85, 82, 69,
];

/// One validator's Ed25519 signature over a message.
#[derive(Clone, Copy, Debug)]
pub struct SignatureData {
    pub signature: [u8; 64],
    pub public_key: [u8; 32],
    pub message_hash: [u8; 32],
    pub validator_index: u8,
    pub timestamp: i64,
}

/// The outcome of checking the signatures over one message.
#[derive(Clone, Debug)]
pub struct MultiSignatureVerification {
    pub signatures: Vec<SignatureData>,
    pub message: Vec<u8>,
    pub required_threshold: u8,
    pub verified_count: u8,
    pub is_valid: bool,
}

/// A validator that signs bridge messages.
#[derive(Clone, Copy, Debug)]
pub struct Validator {
    pub public_key: [u8; 32],
    pub is_active: bool,
    pub stake_amount: u64,
    pub last_activity_slot: u64,
    pub reputation_score: u64,
    pub total_votes: u64,
    pub successful_votes: u64,
}

/// The validators that sign bridge messages; the first `validator_count` entries are in use.
#[derive(Clone, Debug)]
pub struct ValidatorRegistry {
    pub validators: Vec<Validator>,
    pub validator_count: u8,
    pub active_validator_count: u8,
    pub total_stake: u64,
    pub last_update_slot: u64,
}

/// Bridge-wide settings.
#[derive(Clone, Copy, Debug)]
pub struct BridgeConfig {
    pub admin: [u8; 32],
    pub is_paused: bool,
    pub signature_threshold_percentage: u8,
    pub max_transaction_amount: u64,
    pub min_transaction_amount: u64,
    pub daily_withdrawal_limit: u64,
    pub fee_percentage: u16,
    pub treasury_account: [u8; 32],
    pub supported_chains: [u32; 16],
    pub supported_chain_count: u8,
    pub total_locked_amount: u64,
    pub total_transactions: u64,
    pub last_update_slot: u64,
}

/// Totals over several multi-signature checks.
#[derive(Clone, Copy, Debug)]
pub struct VerificationSummary {
    pub total_messages: usize,
    pub successful_verifications: usize,
    pub failed_verifications: usize,
    pub total_signatures_checked: usize,
    pub total_signatures_verified: usize,
    pub success_rate: usize,
}

impl ValidatorRegistry {
    /// Every counted validator has an entry.
    pub open spec fn well_formed(&self) -> bool {
        self.validator_count <= self.validators@.len()
    }
}

/// The signature threshold for `validator_count` validators at `threshold_percentage`
/// percent: the computed share, capped at the validator count, and at least two.
pub open spec fn spec_signature_threshold(validator_count: u8, threshold_percentage: u8) -> u8 {
    let calculated = (validator_count * threshold_percentage) / 100;
    let capped = if calculated < validator_count { calculated } else { validator_count as int };
    if capped < MIN_SIGNATURE_THRESHOLD { MIN_SIGNATURE_THRESHOLD } else { capped as u8 }
}

/// Whether an Ed25519 program instruction's data holds exactly one signature, with the
/// expected signature, public key and message after its header.
pub open spec fn instruction_matches(data: Seq<u8>, signature: Seq<u8>, public_key: Seq<u8>, message: Seq<u8>) -> bool {
    &&& data.len() >= 2
    &&& data[0] == 1
    &&& data.len() >= 78
    &&& data.subrange(14, 78) == signature
    &&& data.len() >= 110
    &&& data.subrange(78, 110) == public_key
    &&& data.len() >= 110 + message.len()
    &&& data.subrange(110, (110 + message.len()) as int) == message
}

/// What checking an Ed25519 signature against the transaction's Ed25519 instructions gives.
pub open spec fn ed25519_outcome(signature: Seq<u8>, public_key: Seq<u8>, message: Seq<u8>, instructions: Seq<Seq<u8>>) -> Result<bool, BridgeError> {
    if message.len() == 0 || message.len() > MAX_SIGNED_MESSAGE_LEN {
        Err(BridgeError::InvalidMessageLength)
    } else if exists|i: int| 0 <= i < instructions.len() && instruction_matches(instructions[i], signature, public_key, message) {
        Ok(true)
    } else {
        Err(BridgeError::SignatureVerificationFailed)
    }
}

/// The hash a validator signs for `message`.
pub open spec fn signed_message_hash(message: Seq<u8>) -> Seq<u8> {
    spec_sha256(BRIDGE_SIGNATURE_DOMAIN@ + message)@
}

/// Whether validator `index` exists and is active.
pub open spec fn index_in_use(set: ValidatorRegistry, index: u8) -> bool {
    index < set.validator_count && set.validators@[index as int].is_active
}

/// What one signature adds to a multi-signature check with `count` verified signatures from
/// the validators `seen`: an expired signature, an unknown or inactive validator, a repeated
/// validator, a wrong key or a wrong message hash is skipped; an empty message or a failed
/// Ed25519 check ends the check with its error.
pub open spec fn multi_signature_step(
    set: ValidatorRegistry,
    message: Seq<u8>,
    instructions: Seq<Seq<u8>>,
    now: i64,
    s: SignatureData,
    count: u8,
    seen: Set<u8>,
) -> Result<(u8, Set<u8>), BridgeError> {
    if now - s.timestamp > MAX_SIGNATURE_AGE_SECONDS {
        Ok((count, seen))
    } else if !index_in_use(set, s.validator_index) {
        Ok((count, seen))
    } else if seen.contains(s.validator_index) {
        Ok((count, seen))
    } else if s.public_key@ != set.validators@[s.validator_index as int].public_key@ {
        Ok((count, seen))
    } else if message.len() == 0 {
        Err(BridgeError::EmptyMessage)
    } else if s.message_hash@ != signed_message_hash(message) {
        Ok((count, seen))
    } else {
        match ed25519_outcome(s.signature@, s.public_key@, message, instructions) {
            Err(e) => Err(e),
            Ok(true) => Ok(((count + 1) as u8, seen.insert(s.validator_index))),
            Ok(false) => Ok((count, seen)),
        }
    }
}

/// The verified count and validators after checking `sigs` in order.
pub open spec fn multi_signature_tally(
    set: ValidatorRegistry,
    message: Seq<u8>,
    instructions: Seq<Seq<u8>>,
    now: i64,
    sigs: Seq<SignatureData>,
) -> Result<(u8, Set<u8>), BridgeError>
    decreases sigs.len(),
{
    if sigs.len() == 0 {
        Ok((0u8, Set::empty()))
    } else {
        match multi_signature_tally(set, message, instructions, now, sigs.drop_last()) {
            Err(e) => Err(e),
            Ok((count, seen)) => multi_signature_step(set, message, instructions, now, sigs.last(), count, seen),
        }
    }
}

/// Every signature's timestamp is close enough to `now` for their difference to be an `i64`.
pub open spec fn timestamps_in_range(sigs: Seq<SignatureData>, now: i64) -> bool {
    forall|i: int| 0 <= i < sigs.len() ==> i64::MIN <= now - (#[trigger] sigs[i]).timestamp <= i64::MAX
}

/// The number of verified signatures never exceeds the number checked.
pub proof fn lemma_tally_count_bounded(
    set: ValidatorRegistry,
    message: Seq<u8>,
    instructions: Seq<Seq<u8>>,
    now: i64,
    sigs: Seq<SignatureData>,
)
    requires
        sigs.len() <= 255,
    ensures
        multi_signature_tally(set, message, instructions, now, sigs) matches Ok((count, _)) ==> count <= sigs.len(),
    decreases sigs.len(),
{
    if sigs.len() > 0 {
        lemma_tally_count_bounded(set, message, instructions, now, sigs.drop_last());
    }
}

/// Once a multi-signature check has failed, more signatures do not change the outcome.
pub proof fn lemma_multi_signature_error_persists(
    set: ValidatorRegistry,
    message: Seq<u8>,
    instructions: Seq<Seq<u8>>,
    now: i64,
    sigs: Seq<SignatureData>,
    n: int,
)
    requires
        0 <= n <= sigs.len(),
        multi_signature_tally(set, message, instructions, now, sigs.take(n)) is Err,
    ensures
        multi_signature_tally(set, message, instructions, now, sigs) == multi_signature_tally(set, message, instructions, now, sigs.take(n)),
    decreases sigs.len() - n,
{
    if n < sigs.len() {
        assert(sigs.take(n + 1).drop_last() =~= sigs.take(n));
        lemma_multi_signature_error_persists(set, message, instructions, now, sigs, n + 1);
    } else {
        assert(sigs.take(n) =~= sigs);
    }
}

/// Whether `data[offset..offset + expected.len()]` equals `expected`.
fn slice_matches(data: &[u8], offset: usize, expected: &[u8]) -> (r: bool)
    requires
        offset + expected@.len() <= data@.len(),
    ensures
        r == (data@.subrange(offset as int, offset + expected@.len()) == expected@),
{
    let n = data.len();
    let mut i: usize = 0;
    while i < expected.len()
        invariant
            i <= expected@.len(),
            n == data@.len(),
            offset + expected@.len() <= n,
            forall|j: int| 0 <= j < i ==> data@[offset + j] == expected@[j],
        decreases expected.len() - i,
    {
        if data[offset + i] != expected[i] {
            assert(data@.subrange(offset as int, offset + expected@.len())[i as int] != expected@[i as int]);
            return false;
        }
        i = i + 1;
    }
    assert(data@.subrange(offset as int, offset + expected@.len()) =~= expected@);
    true
}

/// Whether an Ed25519 program instruction's data carries exactly the expected signature,
/// public key and message.
pub fn verify_ed25519_instruction_data(
    data: &[u8],
    expected_signature: &[u8; 64],
    expected_public_key: &[u8; 32],
    expected_message: &[u8],
) -> (res: Result<bool, BridgeError>)
    ensures
        res == Ok::<bool, BridgeError>(instruction_matches(data@, expected_signature@, expected_public_key@, expected_message@)),
{
    if data.len() < 2 {
        return Ok(false);
    }
    if data[0] != 1 {
        return Ok(false);
    }
    let mut offset: usize = ED25519_HEADER_SIZE;
    if data.len() < offset + ED25519_SIGNATURE_SIZE {
        return Ok(false);
    }
    if !slice_matches(data, offset, expected_signature) {
        return Ok(false);
    }
    offset = offset + ED25519_SIGNATURE_SIZE;
    if data.len() < offset + ED25519_PUBKEY_SIZE {
        return Ok(false);
    }
    if !slice_matches(data, offset, expected_public_key) {
        return Ok(false);
    }
    offset = offset + ED25519_PUBKEY_SIZE;
    if data.len() - offset < expected_message.len() {
        return Ok(false);
    }
    if !slice_matches(data, offset, expected_message) {
        return Ok(false);
    }
    Ok(true)
}

/// Checks an Ed25519 signature against the data of the Ed25519 program instructions that
/// precede the current one in the transaction: the signature holds when one of them carries it.
pub fn verify_ed25519_signature(
    signature: &[u8; 64],
    public_key: &[u8; 32],
    message: &[u8],
    instructions: &[Vec<u8>],
) -> (res: Result<bool, BridgeError>)
    ensures
        res == ed25519_outcome(signature@, public_key@, message@, vec_views(instructions@)),
{
    let ghost views = vec_views(instructions@);
    if message.len() == 0 || message.len() > MAX_SIGNED_MESSAGE_LEN {
        return Err(BridgeError::InvalidMessageLength);
    }
    let mut i: usize = 0;
    while i < instructions.len()
        invariant
            i <= instructions@.len(),
            views == vec_views(instructions@),
            0 < message@.len() <= MAX_SIGNED_MESSAGE_LEN,
            forall|j: int| 0 <= j < i ==> !instruction_matches(#[trigger] views[j], signature@, public_key@, message@),
        decreases instructions.len() - i,
    {
        let found = verify_ed25519_instruction_data(instructions[i].as_slice(), signature, public_key, message)?;
        if found {
            assert(instruction_matches(views[i as int], signature@, public_key@, message@));
            assert(exists|j: int| 0 <= j < views.len() && instruction_matches(views[j], signature@, public_key@, message@));
            return Ok(true);
        }
        i = i + 1;
    }
    assert(!(exists|j: int| 0 <= j < views.len() && instruction_matches(views[j], signature@, public_key@, message@))) by {
        assert forall|j: int| 0 <= j < views.len() implies !instruction_matches(views[j], signature@, public_key@, message@) by {
            assert(!instruction_matches(views[j], signature@, public_key@, message@));
        }
    }
    Err(BridgeError::SignatureVerificationFailed)
}

/// The signature threshold: the share `threshold_percentage` of the validators, capped at
/// the validator count and raised to at least `MIN_SIGNATURE_THRESHOLD`.
pub fn calculate_signature_threshold(validator_count: u8, threshold_percentage: u8) -> (res: Result<u8, BridgeError>)
    ensures
        validator_count == 0 ==> res == Err::<u8, BridgeError>(BridgeError::NoValidatorsInSet),
        validator_count > 0 && threshold_percentage > 100 ==> res == Err::<u8, BridgeError>(BridgeError::InvalidThresholdPercentage),
        validator_count > 0 && threshold_percentage <= 100 ==> res == Ok::<u8, BridgeError>(spec_signature_threshold(validator_count, threshold_percentage)),
{
    if validator_count == 0 {
        return Err(BridgeError::NoValidatorsInSet);
    }
    if threshold_percentage > 100 {
        return Err(BridgeError::InvalidThresholdPercentage);
    }
    assert(validator_count * threshold_percentage <= 25500) by (nonlinear_arith)
        requires
            validator_count <= 255,
            threshold_percentage <= 100,
    ;
    let calculated = ((validator_count as u16 * threshold_percentage as u16) / 100) as u8;
    let capped = if calculated < validator_count { calculated } else { validator_count };
    let final_threshold = if capped < MIN_SIGNATURE_THRESHOLD { MIN_SIGNATURE_THRESHOLD } else { capped };
    Ok(final_threshold)
}

/// Whether a signature made at `signature_timestamp` is older than the accepted age at `now`.
pub fn is_signature_expired(signature_timestamp: i64, current_slot: u64, now: i64) -> (res: Result<bool, BridgeError>)
    requires
        i64::MIN <= now - signature_timestamp <= i64::MAX,
    ensures
        res == Ok::<bool, BridgeError>(now - signature_timestamp > MAX_SIGNATURE_AGE_SECONDS),
{
    let signature_age = now - signature_timestamp;
    let max_age_seconds = (MAX_SIGNATURE_AGE * 400) / 1000;
    Ok(signature_age > max_age_seconds as i64)
}

/// Whether validator `validator_index` exists and is active.
pub fn is_valid_validator_index(validator_index: u8, validator_set: &ValidatorRegistry) -> (res: Result<bool, BridgeError>)
    requires
        validator_set.well_formed(),
    ensures
        res == Ok::<bool, BridgeError>(index_in_use(*validator_set, validator_index)),
{
    Ok(validator_index < validator_set.validator_count && validator_set.validators[validator_index as usize].is_active)
}

/// The public key of an active validator.
pub fn get_validator_public_key(validator_index: u8, validator_set: &ValidatorRegistry) -> (res: Result<[u8; 32], BridgeError>)
    requires
        validator_set.well_formed(),
    ensures
        validator_index >= validator_set.validator_count ==> res == Err::<[u8; 32], BridgeError>(BridgeError::ValidatorIndexOutOfBounds),
        validator_index < validator_set.validator_count && !validator_set.validators@[validator_index as int].is_active
            ==> res == Err::<[u8; 32], BridgeError>(BridgeError::ValidatorNotActive),
        index_in_use(*validator_set, validator_index) ==> res == Ok::<[u8; 32], BridgeError>(validator_set.validators@[validator_index as int].public_key),
{
    if validator_index >= validator_set.validator_count {
        return Err(BridgeError::ValidatorIndexOutOfBounds);
    }
    let validator = &validator_set.validators[validator_index as usize];
    if !validator.is_active {
        return Err(BridgeError::ValidatorNotActive);
    }
    Ok(validator.public_key)
}

/// The SHA-256 hash of the bridge's domain separator followed by the message; an empty
/// message is refused.
pub fn hash_message_for_signature(message: &[u8]) -> (res: Result<[u8; 32], BridgeError>)
    ensures
        message@.len() == 0 ==> res == Err::<[u8; 32], BridgeError>(BridgeError::EmptyMessage),
        message@.len() > 0 ==> res == Ok::<[u8; 32], BridgeError>(spec_sha256(BRIDGE_SIGNATURE_DOMAIN@ + message@)),
{
    if message.len() == 0 {
        return Err(BridgeError::EmptyMessage);
    }
    let domain: [u8; 23] = BRIDGE_SIGNATURE_DOMAIN;
    Ok(sha256_of_parts(&domain, message))
}

/// What checking the signatures over one message gives: the threshold and the verified count,
/// or the error that ends the check.
pub open spec fn multi_signature_outcome(
    signatures: Seq<SignatureData>,
    set: ValidatorRegistry,
    config: BridgeConfig,
    message: Seq<u8>,
    instructions: Seq<Seq<u8>>,
    now: i64,
) -> Result<(u8, u8), BridgeError> {
    if signatures.len() == 0 {
        Err(BridgeError::NoSignaturesProvided)
    } else if signatures.len() > MAX_VALIDATORS_PER_TX {
        Err(BridgeError::TooManySignatures)
    } else if set.validator_count == 0 {
        Err(BridgeError::NoValidatorsInSet)
    } else if config.signature_threshold_percentage > 100 {
        Err(BridgeError::InvalidThresholdPercentage)
    } else {
        let threshold = spec_signature_threshold(set.validator_count, config.signature_threshold_percentage);
        match multi_signature_tally(set, message, instructions, now, signatures) {
            Err(e) => Err(e),
            Ok((count, _)) => if count < threshold {
                Err(BridgeError::InsufficientSignatures)
            } else {
                Ok((threshold, count))
            },
        }
    }
}

/// Whether `v` reports the given outcome of checking `signatures` over `message`.
pub open spec fn reports(v: MultiSignatureVerification, signatures: Seq<SignatureData>, message: Seq<u8>, outcome: (u8, u8)) -> bool {
    &&& v.signatures@ == signatures
    &&& v.message@ == message
    &&& v.required_threshold == outcome.0
    &&& v.verified_count == outcome.1
    &&& v.is_valid
}

/// Whether `index` is among `indices`.
fn contains_index(indices: &Vec<u8>, index: u8) -> (r: bool)
    ensures
        r == indices@.contains(index),
{
    let mut i: usize = 0;
    while i < indices.len()
        invariant
            i <= indices@.len(),
            forall|j: int| 0 <= j < i ==> indices@[j] != index,
        decreases indices.len() - i,
    {
        if indices[i] == index {
            return true;
        }
        i = i + 1;
    }
    false
}

/// A copy of a slice of signatures.
fn copy_signatures(signatures: &[SignatureData]) -> (out: Vec<SignatureData>)
    ensures
        out@ == signatures@,
{
    let mut out: Vec<SignatureData> = Vec::new();
    let mut i: usize = 0;
    while i < signatures.len()
        invariant
            i <= signatures@.len(),
            out@ == signatures@.take(i as int),
        decreases signatures.len() - i,
    {
        out.push(signatures[i]);
        assert(signatures@.take(i + 1) =~= signatures@.take(i as int).push(signatures@[i as int]));
        i = i + 1;
    }
    assert(signatures@.take(signatures@.len() as int) =~= signatures@);
    out
}

/// Checks the validators' signatures over `message`: each signature counts once per active
/// validator when it is recent, carries the validator's key and the message's hash, and an
/// Ed25519 instruction of the transaction carries it; the check succeeds when the count
/// reaches the threshold.
pub fn verify_multi_signature(
    signatures: &[SignatureData],
    validator_set: &ValidatorRegistry,
    bridge_config: &BridgeConfig,
    message: &[u8],
    current_slot: u64,
    now: i64,
    instructions: &[Vec<u8>],
) -> (res: Result<MultiSignatureVerification, BridgeError>)
    requires
        validator_set.well_formed(),
        timestamps_in_range(signatures@, now),
    ensures
        match multi_signature_outcome(signatures@, *validator_set, *bridge_config, message@, vec_views(instructions@), now) {
            Err(e) => res == Err::<MultiSignatureVerification, BridgeError>(e),
            Ok(outcome) => res matches Ok(v) && reports(v, signatures@, message@, outcome),
        },
{
    let ghost views = vec_views(instructions@);
    if signatures.len() == 0 {
        return Err(BridgeError::NoSignaturesProvided);
    }
    if signatures.len() > MAX_VALIDATORS_PER_TX {
        return Err(BridgeError::TooManySignatures);
    }
    let required_threshold = calculate_signature_threshold(
        validator_set.validator_count,
        bridge_config.signature_threshold_percentage,
    )?;
    let mut verified_count: u8 = 0;
    let mut verified_validators: Vec<u8> = Vec::new();
    let mut i: usize = 0;
    proof {
        lemma_empty_to_set::<u8>();
        assert(signatures@.take(0) =~= Seq::<SignatureData>::empty());
    }
    while i < signatures.len()
        invariant
            i <= signatures@.len() <= MAX_VALIDATORS_PER_TX,
            signatures@.len() > 0,
            validator_set.validator_count > 0,
            bridge_config.signature_threshold_percentage <= 100,
            validator_set.well_formed(),
            timestamps_in_range(signatures@, now),
            views == vec_views(instructions@),
            verified_count <= i,
            multi_signature_tally(*validator_set, message@, views, now, signatures@.take(i as int))
                == Ok::<(u8, Set<u8>), BridgeError>((verified_count, verified_validators@.to_set())),
        decreases signatures.len() - i,
    {
        let s = signatures[i];
        let ghost prefix = signatures@.take(i as int);
        proof {
            assert(signatures@.take(i + 1).drop_last() =~= prefix);
            assert(signatures@.take(i + 1).last() == s);
            assert(i64::MIN <= now - signatures@[i as int].timestamp <= i64::MAX);
        }
        let expired = match is_signature_expired(s.timestamp, current_slot, now) {
            Ok(b) => b,
            Err(e) => { return Err(e); },
        };
        if !expired {
            let valid_index = match is_valid_validator_index(s.validator_index, validator_set) {
                Ok(b) => b,
                Err(e) => { return Err(e); },
            };
            if valid_index && !contains_index(&verified_validators, s.validator_index) {
                let validator_pubkey = match get_validator_public_key(s.validator_index, validator_set) {
                    Ok(k) => k,
                    Err(e) => { return Err(e); },
                };
                if bytes32_eq(&s.public_key, &validator_pubkey) {
                    let computed_hash = match hash_message_for_signature(message) {
                        Ok(h) => h,
                        Err(e) => {
                            proof {
                                lemma_multi_signature_error_persists(*validator_set, message@, views, now, signatures@, i + 1);
                            }
                            return Err(e);
                        },
                    };
                    if bytes32_eq(&s.message_hash, &computed_hash) {
                        let verified = match verify_ed25519_signature(&s.signature, &s.public_key, message, instructions) {
                            Ok(b) => b,
                            Err(e) => {
                                proof {
                                    lemma_multi_signature_error_persists(*validator_set, message@, views, now, signatures@, i + 1);
                                }
                                return Err(e);
                            },
                        };
                        if verified {
                            proof {
                                lemma_push_to_set(verified_validators@, s.validator_index);
                            }
                            verified_validators.push(s.validator_index);
                            verified_count = verified_count + 1;
                        }
                    }
                }
            }
        }
        i = i + 1;
    }
    assert(signatures@.take(signatures@.len() as int) =~= signatures@);
    let is_valid = verified_count >= required_threshold;
    if !is_valid {
        return Err(BridgeError::InsufficientSignatures);
    }
    Ok(MultiSignatureVerification {
        signatures: copy_signatures(signatures),
        message: crate::cryptography::copy_bytes(message),
        required_threshold,
        verified_count,
        is_valid,
    })
}

/// The outcome of checking the `i`-th signature alone over the `i`-th message.
pub open spec fn batch_item_outcome(
    signatures: Seq<SignatureData>,
    messages: Seq<Seq<u8>>,
    i: int,
    set: ValidatorRegistry,
    config: BridgeConfig,
    instructions: Seq<Seq<u8>>,
    now: i64,
) -> Result<(u8, u8), BridgeError> {
    multi_signature_outcome(seq![signatures[i]], set, config, messages[i], instructions, now)
}

/// Checks each message against the signature at the same position, stopping at the first
/// failed check.
pub fn verify_signature_batch(
    signatures: &[SignatureData],
    validator_set: &ValidatorRegistry,
    bridge_config: &BridgeConfig,
    messages: &[Vec<u8>],
    current_slot: u64,
    now: i64,
    instructions: &[Vec<u8>],
) -> (res: Result<Vec<MultiSignatureVerification>, BridgeError>)
    requires
        validator_set.well_formed(),
        timestamps_in_range(signatures@, now),
    ensures
        signatures@.len() != messages@.len() ==> res == Err::<Vec<MultiSignatureVerification>, BridgeError>(
            BridgeError::SignatureMessageCountMismatch,
        ),
        signatures@.len() == messages@.len() && (forall|i: int| 0 <= i < messages@.len() ==> (#[trigger] batch_item_outcome(
            signatures@, vec_views(messages@), i, *validator_set, *bridge_config, vec_views(instructions@), now,
        )) is Ok) ==> (res matches Ok(v) && v@.len() == messages@.len() && forall|i: int| 0 <= i < messages@.len() ==> reports(
            #[trigger] v@[i],
            seq![signatures@[i]],
            messages@[i]@,
            batch_item_outcome(signatures@, vec_views(messages@), i, *validator_set, *bridge_config, vec_views(instructions@), now)->Ok_0,
        )),
        signatures@.len() == messages@.len() ==> forall|k: int| 0 <= k < messages@.len()
            && (#[trigger] batch_item_outcome(signatures@, vec_views(messages@), k, *validator_set, *bridge_config, vec_views(instructions@), now)) is Err
            && (forall|j: int| 0 <= j < k ==> (#[trigger] batch_item_outcome(signatures@, vec_views(messages@), j, *validator_set, *bridge_config, vec_views(instructions@), now)) is Ok)
            ==> res == Err::<Vec<MultiSignatureVerification>, BridgeError>(
            batch_item_outcome(signatures@, vec_views(messages@), k, *validator_set, *bridge_config, vec_views(instructions@), now)->Err_0,
        ),
{
    if signatures.len() != messages.len() {
        return Err(BridgeError::SignatureMessageCountMismatch);
    }
    let ghost mv = vec_views(messages@);
    let ghost iv = vec_views(instructions@);
    let mut verifications: Vec<MultiSignatureVerification> = Vec::new();
    let mut i: usize = 0;
    while i < messages.len()
        invariant
            i <= messages@.len(),
            signatures@.len() == messages@.len(),
            mv == vec_views(messages@),
            iv == vec_views(instructions@),
            validator_set.well_formed(),
            timestamps_in_range(signatures@, now),
            verifications@.len() == i,
            forall|j: int| 0 <= j < i ==> (#[trigger] batch_item_outcome(signatures@, mv, j, *validator_set, *bridge_config, iv, now)) is Ok,
            forall|j: int| 0 <= j < i ==> reports(
                #[trigger] verifications@[j],
                seq![signatures@[j]],
                messages@[j]@,
                batch_item_outcome(signatures@, mv, j, *validator_set, *bridge_config, iv, now)->Ok_0,
            ),
        decreases messages.len() - i,
    {
        let mut one: Vec<SignatureData> = Vec::new();
        one.push(signatures[i]);
        assert(one@ =~= seq![signatures@[i as int]]);
        assert(timestamps_in_range(one@, now));
        assert(mv[i as int] == messages@[i as int]@);
        let verification = match verify_multi_signature(
            one.as_slice(),
            validator_set,
            bridge_config,
            messages[i].as_slice(),
            current_slot,
            now,
            instructions,
        ) {
            Ok(v) => v,
            Err(e) => {
                proof {
                    assert forall|k: int| 0 <= k < messages@.len()
                        && (#[trigger] batch_item_outcome(signatures@, mv, k, *validator_set, *bridge_config, iv, now)) is Err
                        && (forall|j: int| 0 <= j < k ==> (#[trigger] batch_item_outcome(signatures@, mv, j, *validator_set, *bridge_config, iv, now)) is Ok)
                        implies e == batch_item_outcome(signatures@, mv, k, *validator_set, *bridge_config, iv, now)->Err_0 by {
                        if k < i {
                            assert(batch_item_outcome(signatures@, mv, k, *validator_set, *bridge_config, iv, now) is Ok);
                        } else if k > i {
                            assert(batch_item_outcome(signatures@, mv, i as int, *validator_set, *bridge_config, iv, now) is Ok);
                        }
                    }
                }
                return Err(e);
            },
        };
        verifications.push(verification);
        i = i + 1;
    }
    proof {
        assert forall|k: int| 0 <= k < messages@.len()
            && (#[trigger] batch_item_outcome(signatures@, mv, k, *validator_set, *bridge_config, iv, now)) is Err
            && (forall|j: int| 0 <= j < k ==> (#[trigger] batch_item_outcome(signatures@, mv, j, *validator_set, *bridge_config, iv, now)) is Ok)
            implies false by {
            assert(batch_item_outcome(signatures@, mv, k, *validator_set, *bridge_config, iv, now) is Ok);
        }
    }
    Ok(verifications)
}

/// Builds a signature record for a message from pseudo-random bytes (the SHA-256 hash of the
/// message followed by the validator's index), for exercising the checks.
pub fn create_test_signature_data(validator_index: u8, message: &[u8], now: i64) -> (res: Result<SignatureData, BridgeError>)
    ensures
        message@.len() == 0 ==> res == Err::<SignatureData, BridgeError>(BridgeError::EmptyMessage),
        message@.len() > 0 ==> (res matches Ok(d) && {
            let h = spec_sha256(message@ + seq![validator_index])@;
            &&& d.signature@ == h + Seq::new(32, |i: int| 0u8)
            &&& d.public_key@ == h
            &&& d.message_hash == spec_sha256(BRIDGE_SIGNATURE_DOMAIN@ + message@)
            &&& d.validator_index == validator_index
            &&& d.timestamp == now
        }),
{
    let index_bytes: [u8; 1] = [validator_index];
    let hash = sha256_of_parts(message, &index_bytes);
    let mut signature: [u8; 64] = [0u8; 64];
    let mut j: usize = 0;
    while j < 32
        invariant
            j <= 32,
            signature@.len() == 64,
            forall|m: int| 0 <= m < j ==> signature@[m] == hash@[m],
            forall|m: int| 32 <= m < 64 ==> signature@[m] == 0u8,
        decreases 32 - j,
    {
        signature[j] = hash[j];
        j = j + 1;
    }
    let message_hash = hash_message_for_signature(message)?;
    proof {
        assert(index_bytes@ =~= seq![validator_index]);
        assert(signature@ =~= hash@ + Seq::new(32, |i: int| 0u8));
    }
    Ok(SignatureData { signature, public_key: hash, message_hash, validator_index, timestamp: now })
}

/// Whether every byte is zero.
fn all_zero(data: &[u8]) -> (r: bool)
    ensures
        r == (forall|i: int| 0 <= i < data@.len() ==> data@[i] == 0),
{
    let mut i: usize = 0;
    while i < data.len()
        invariant
            i <= data@.len(),
            forall|j: int| 0 <= j < i ==> data@[j] == 0,
        decreases data.len() - i,
    {
        if data[i] != 0 {
            return false;
        }
        i = i + 1;
    }
    true
}

/// Whether every byte of the string is zero.
pub open spec fn is_all_zero(data: Seq<u8>) -> bool {
    forall|i: int| 0 <= i < data.len() ==> data[i] == 0
}

/// Checks that the signature, key and hash are not all zeros and that the signature's
/// timestamp is within an hour of `now`.
pub fn validate_signature_format(signature_data: &SignatureData, now: i64) -> (res: Result<(), BridgeError>)
    requires
        i64::MIN < now - signature_data.timestamp <= i64::MAX,
    ensures
        res == (if is_all_zero(signature_data.signature@) {
            Err::<(), BridgeError>(BridgeError::InvalidSignatureFormat)
        } else if is_all_zero(signature_data.public_key@) {
            Err(BridgeError::InvalidPublicKeyFormat)
        } else if is_all_zero(signature_data.message_hash@) {
            Err(BridgeError::InvalidMessageHashFormat)
        } else if now - signature_data.timestamp > MAX_SIGNATURE_CLOCK_SKEW
            || signature_data.timestamp - now > MAX_SIGNATURE_CLOCK_SKEW {
            Err(BridgeError::SignatureTimestampOutOfRange)
        } else {
            Ok(())
        }),
{
    if all_zero(&signature_data.signature) {
        return Err(BridgeError::InvalidSignatureFormat);
    }
    if all_zero(&signature_data.public_key) {
        return Err(BridgeError::InvalidPublicKeyFormat);
    }
    if all_zero(&signature_data.message_hash) {
        return Err(BridgeError::InvalidMessageHashFormat);
    }
    let diff = now - signature_data.timestamp;
    let time_diff = if diff < 0 { -diff } else { diff };
    if time_diff > MAX_SIGNATURE_CLOCK_SKEW {
        return Err(BridgeError::SignatureTimestampOutOfRange);
    }
    Ok(())
}

/// How many of the checks succeeded.
pub open spec fn count_valid(v: Seq<MultiSignatureVerification>) -> nat
    decreases v.len(),
{
    if v.len() == 0 { 0 } else { count_valid(v.drop_last()) + if v.last().is_valid { 1nat } else { 0nat } }
}

/// How many signatures the checks held in all.
pub open spec fn sum_signatures(v: Seq<MultiSignatureVerification>) -> nat
    decreases v.len(),
{
    if v.len() == 0 { 0 } else { sum_signatures(v.drop_last()) + v.last().signatures@.len() }
}

/// How many signatures the checks verified in all.
pub open spec fn sum_verified(v: Seq<MultiSignatureVerification>) -> nat
    decreases v.len(),
{
    if v.len() == 0 { 0 } else { sum_verified(v.drop_last()) + v.last().verified_count as nat }
}

/// A count of successes never exceeds the number of checks.
proof fn lemma_count_valid_bounded(v: Seq<MultiSignatureVerification>)
    ensures
        count_valid(v) <= v.len(),
    decreases v.len(),
{
    if v.len() > 0 {
        lemma_count_valid_bounded(v.drop_last());
    }
}

/// The sums over a prefix grow with the prefix.
proof fn lemma_sums_monotone(v: Seq<MultiSignatureVerification>, i: int)
    requires
        0 <= i <= v.len(),
    ensures
        sum_signatures(v.take(i)) <= sum_signatures(v),
        sum_verified(v.take(i)) <= sum_verified(v),
    decreases v.len() - i,
{
    if i < v.len() {
        lemma_sums_monotone(v, i + 1);
        assert(v.take(i + 1).drop_last() =~= v.take(i));
    } else {
        assert(v.take(i) =~= v);
    }
}

/// Totals over several multi-signature checks, with the share that succeeded in percent.
pub fn aggregate_verification_results(verifications: &[MultiSignatureVerification]) -> (res: Result<VerificationSummary, BridgeError>)
    requires
        verifications@.len() * 100 <= usize::MAX,
        sum_signatures(verifications@) <= usize::MAX,
        sum_verified(verifications@) <= usize::MAX,
    ensures
        (res matches Ok(summary) && {
            let n = verifications@.len();
            let ok = count_valid(verifications@);
            &&& summary.total_messages == n
            &&& summary.successful_verifications == ok
            &&& summary.failed_verifications == n - ok
            &&& summary.total_signatures_checked == sum_signatures(verifications@)
            &&& summary.total_signatures_verified == sum_verified(verifications@)
            &&& summary.success_rate == (if n > 0 { ok * 100 / n } else { 0 })
        }),
{
    let total = verifications.len();
    let mut successful: usize = 0;
    let mut signature_count: usize = 0;
    let mut verified_count: usize = 0;
    let mut i: usize = 0;
    while i < verifications.len()
        invariant
            i <= verifications@.len(),
            verifications@.len() * 100 <= usize::MAX,
            sum_signatures(verifications@) <= usize::MAX,
            sum_verified(verifications@) <= usize::MAX,
            successful == count_valid(verifications@.take(i as int)),
            signature_count == sum_signatures(verifications@.take(i as int)),
            verified_count == sum_verified(verifications@.take(i as int)),
        decreases verifications.len() - i,
    {
        proof {
            assert(verifications@.take(i + 1).drop_last() =~= verifications@.take(i as int));
            lemma_sums_monotone(verifications@, i + 1);
            lemma_count_valid_bounded(verifications@.take(i + 1));
        }
        let v = &verifications[i];
        if v.is_valid {
            successful = successful + 1;
        }
        signature_count = signature_count + v.signatures.len();
        verified_count = verified_count + v.verified_count as usize;
        i = i + 1;
    }
    proof {
        assert(verifications@.take(total as int) =~= verifications@);
        lemma_count_valid_bounded(verifications@);
    }
    let success_rate = if total > 0 { (successful * 100) / total } else { 0 };
    Ok(VerificationSummary {
        total_messages: total,
        successful_verifications: successful,
        failed_verifications: total - successful,
        total_signatures_checked: signature_count,
        total_signatures_verified: verified_count,
        success_rate,
    })
}

} // verus!
