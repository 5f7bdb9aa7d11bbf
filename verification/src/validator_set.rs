//! The bridge's validator set: joining, activation, slashing, stake updates, epochs and
//! stake-weighted consensus.
use vstd::prelude::*;

use crate::errors::BridgeError;
use crate::merkle::bytes32_eq;

verus! {

/// Most validators in a set.
pub const MAX_VALIDATORS: usize = 100;
/// Smallest stake of a validator, in lamports.
pub const MIN_VALIDATOR_STAKE: u64 = 1_000_000_000;
/// Epochs kept in the history.
pub const MAX_EPOCH_HISTORY: usize = 10;
/// Largest voting power of one validator: a full `u64` stake with the whole reputation bonus.
pub const MAX_VOTING_POWER: u64 = 22_136_092_888_450;

/// Where a validator stands.
#[derive(Clone, Copy, Debug, PartialEq, Eq, Structural)]
pub enum ValidatorStatus {
    Active,
    Inactive,
    Slashed,
    Banned,
    Pending,
}

impl Default for ValidatorStatus {
    fn default() -> (s: Self)
        ensures
            s == ValidatorStatus::Pending,
    {
        ValidatorStatus::Pending
    }
}

/// One validator of the set.
#[derive(Clone, Copy, Debug)]
pub struct ValidatorInfo {
    pub pubkey: [u8; 32],
    pub stake: u64,
    pub status: ValidatorStatus,
    pub successful_validations: u64,
    pub failed_validations: u64,
    pub joined_at: i64,
    pub last_activity: i64,
    pub reputation: u16,
    pub slash_count: u8,
    pub total_rewards: u64,
    pub network_id: u8,
    pub commission_rate: u16,
    pub region_code: u8,
    pub version: u32,
}

/// What a finished epoch looked like.
#[derive(Clone, Copy, Debug, PartialEq, Eq, Structural)]
pub struct EpochInfo {
    pub epoch: u64,
    pub start_time: i64,
    pub end_time: i64,
    pub active_validators: u16,
    pub total_validations: u64,
    pub successful_validations: u64,
    pub total_rewards_distributed: u64,
    pub average_reputation: u16,
}

/// How much stake each kind of misbehaviour costs, in basis points, and when a validator is
/// banned or deactivated.
#[derive(Clone, Copy, Debug, PartialEq, Eq, Structural)]
pub struct SlashingConfig {
    pub double_signing_slash_rate: u16,
    pub unavailability_slash_rate: u16,
    pub invalid_signature_slash_rate: u16,
    pub malicious_behavior_slash_rate: u16,
    pub max_slashes_before_ban: u8,
    pub min_reputation_threshold: u16,
}

/// How validation rewards are paid.
#[derive(Clone, Copy, Debug, PartialEq, Eq, Structural)]
pub struct RewardConfig {
    pub base_reward_per_validation: u64,
    pub reputation_bonus_multiplier: u16,
    pub max_commission_rate: u16,
    pub min_validations_for_rewards: u32,
}

/// How validators must be spread over regions.
#[derive(Clone, Copy, Debug, PartialEq, Eq, Structural)]
pub struct GeographicDistribution {
    pub enforce_distribution: bool,
    pub max_percentage_per_region: u16,
    pub min_regions_required: u8,
}

/// Which validator software versions are accepted.
#[derive(Clone, Copy, Debug, PartialEq, Eq, Structural)]
pub struct VersionRequirements {
    pub minimum_version: u32,
    pub recommended_version: u32,
    pub upgrade_grace_period: u64,
}

/// Kinds of misbehaviour that are slashed.
#[derive(Clone, Copy, Debug, PartialEq, Eq, Structural)]
pub enum SlashType {
    DoubleSigning,
    Unavailability,
    InvalidSignature,
    Malicious,
}

impl Default for SlashingConfig {
    fn default() -> (c: Self)
        ensures
            c == (SlashingConfig {
                double_signing_slash_rate: 500,
                unavailability_slash_rate: 100,
                invalid_signature_slash_rate: 200,
                malicious_behavior_slash_rate: 1000,
                max_slashes_before_ban: 3,
                min_reputation_threshold: 200,
            }),
    {
        SlashingConfig {
            double_signing_slash_rate: 500,
            unavailability_slash_rate: 100,
            invalid_signature_slash_rate: 200,
            malicious_behavior_slash_rate: 1000,
            max_slashes_before_ban: 3,
            min_reputation_threshold: 200,
        }
    }
}

impl Default for RewardConfig {
    fn default() -> (c: Self)
        ensures
            c == (RewardConfig {
                base_reward_per_validation: 1000,
                reputation_bonus_multiplier: 2000,
                max_commission_rate: 1000,
                min_validations_for_rewards: 10,
            }),
    {
        RewardConfig {
            base_reward_per_validation: 1000,
            reputation_bonus_multiplier: 2000,
            max_commission_rate: 1000,
            min_validations_for_rewards: 10,
        }
    }
}

impl Default for GeographicDistribution {
    fn default() -> (c: Self)
        ensures
            c == (GeographicDistribution {
                enforce_distribution: true,
                max_percentage_per_region: 3000,
                min_regions_required: 3,
            }),
    {
        GeographicDistribution { enforce_distribution: true, max_percentage_per_region: 3000, min_regions_required: 3 }
    }
}

impl Default for VersionRequirements {
    fn default() -> (c: Self)
        ensures
            c == (VersionRequirements { minimum_version: 1, recommended_version: 1, upgrade_grace_period: 604800 }),
    {
        VersionRequirements { minimum_version: 1, recommended_version: 1, upgrade_grace_period: 604800 }
    }
}

/// A validator's voting power: one unit per million lamports of stake when active, plus up to
/// 20% for reputation.
pub open spec fn voting_power(v: ValidatorInfo) -> int {
    if v.status != ValidatorStatus::Active {
        0
    } else {
        let base = v.stake / 1_000_000;
        let rep = if v.reputation < 1000 { v.reputation as int } else { 1000 };
        base + (base * rep) / 5000
    }
}

/// The validations counted after one more successful or failed validation.
pub open spec fn counts_after(v: ValidatorInfo, successful: bool) -> (int, int) {
    if successful {
        ((if v.successful_validations == u64::MAX { u64::MAX as int } else { v.successful_validations + 1 }), v.failed_validations as int)
    } else {
        (v.successful_validations as int, (if v.failed_validations == u64::MAX { u64::MAX as int } else { v.failed_validations + 1 }))
    }
}

impl ValidatorInfo {
    /// The validator's voting power: zero unless active; otherwise its stake in millions of
    /// lamports with a bonus of up to 20% for reputation.
    pub fn calculate_voting_power(&self) -> (power: u64)
        ensures
            power == voting_power(*self),
            power <= MAX_VOTING_POWER,
    {
        if self.status != ValidatorStatus::Active {
            return 0;
        }
        let base_power = self.stake / 1_000_000;
        let reputation_multiplier: u64 = if (self.reputation as u64) < 1000 { self.reputation as u64 } else { 1000 };
        assert(base_power * reputation_multiplier <= 18446744073709 * 1000) by (nonlinear_arith)
            requires
                base_power <= 18446744073709,
                reputation_multiplier <= 1000,
        ;
        let bonus = (base_power * reputation_multiplier) / 5000;
        assert(bonus <= base_power / 5) by (nonlinear_arith)
            requires
                bonus == (base_power * reputation_multiplier) / 5000,
                reputation_multiplier <= 1000,
        ;
        base_power + bonus
    }

    /// Whether the validator earns rewards: active, reputable and slashed fewer than three
    /// times.
    pub fn is_eligible_for_rewards(&self) -> (r: bool)
        ensures
            r == (self.status == ValidatorStatus::Active && self.reputation >= 500 && self.slash_count < 3),
    {
        self.status == ValidatorStatus::Active && self.reputation >= 500 && self.slash_count < 3
    }

    /// Records one validation: success raises the reputation by 5 (up to 1000), failure lowers
    /// it by 10; past 100 validations, a failure rate above 20% slashes the validator.
    pub fn update_reputation(&mut self, successful: bool, now: i64) -> (res: Result<(), BridgeError>)
        requires
            counts_after(*old(self), successful).0 + counts_after(*old(self), successful).1 <= u64::MAX,
            counts_after(*old(self), successful).0 + counts_after(*old(self), successful).1 > 100
                ==> counts_after(*old(self), successful).1 * 100 <= u64::MAX,
        ensures
            res is Ok,
            ({
                let (s, f) = counts_after(*old(self), successful);
                let total = s + f;
                let slashed = total > 100 && (f * 100) / total > 20;
                &&& final(self).successful_validations == s
                &&& final(self).failed_validations == f
                &&& final(self).reputation == (if successful {
                    if old(self).reputation + 5 > 1000 { 1000 } else { old(self).reputation + 5 }
                } else {
                    if old(self).reputation < 10 { 0 } else { old(self).reputation - 10 }
                })
                &&& final(self).last_activity == now
                &&& final(self).status == (if slashed { ValidatorStatus::Slashed } else { old(self).status })
                &&& final(self).slash_count == (if slashed && old(self).slash_count < 255 {
                    (old(self).slash_count + 1) as u8
                } else {
                    old(self).slash_count
                })
                &&& final(self).pubkey == old(self).pubkey
                &&& final(self).stake == old(self).stake
                &&& final(self).joined_at == old(self).joined_at
                &&& final(self).total_rewards == old(self).total_rewards
                &&& final(self).network_id == old(self).network_id
                &&& final(self).commission_rate == old(self).commission_rate
                &&& final(self).region_code == old(self).region_code
                &&& final(self).version == old(self).version
            }),
    {
        if successful {
            self.successful_validations = self.successful_validations.saturating_add(1);
            let raised = self.reputation.saturating_add(5);
            self.reputation = if raised < 1000 { raised } else { 1000 };
        } else {
            self.failed_validations = self.failed_validations.saturating_add(1);
            self.reputation = self.reputation.saturating_sub(10);
        }
        self.last_activity = now;
        let total_validations = self.successful_validations + self.failed_validations;
        if total_validations > 100 {
            let failure_rate = (self.failed_validations * 100) / total_validations;
            if failure_rate > 20 {
                self.status = ValidatorStatus::Slashed;
                self.slash_count = self.slash_count.saturating_add(1);
            }
        }
        Ok(())
    }
}

/// The validator set of a bridge.
#[derive(Clone, Debug)]
pub struct ValidatorSet {
    pub bridge_config: [u8; 32],
    pub current_epoch: u64,
    pub validator_count: u16,
    pub active_validator_count: u16,
    pub total_stake: u64,
    pub consensus_threshold: u16,
    pub last_updated: i64,
    pub rotation_frequency: u64,
    pub next_rotation: i64,
    pub validators: Vec<ValidatorInfo>,
    pub epoch_history: Vec<EpochInfo>,
    pub slashing_config: SlashingConfig,
    pub reward_config: RewardConfig,
    pub geo_distribution: GeographicDistribution,
    pub version_requirements: VersionRequirements,
}

/// How many validators satisfy `p`.
pub open spec fn count_where(vals: Seq<ValidatorInfo>, p: spec_fn(ValidatorInfo) -> bool) -> nat
    decreases vals.len(),
{
    if vals.len() == 0 {
        0
    } else {
        count_where(vals.drop_last(), p) + if p(vals.last()) { 1nat } else { 0nat }
    }
}

/// Whether a validator is active.
pub open spec fn is_active(v: ValidatorInfo) -> bool {
    v.status == ValidatorStatus::Active
}

/// How many validators are active.
pub open spec fn count_active(vals: Seq<ValidatorInfo>) -> nat {
    count_where(vals, |v: ValidatorInfo| is_active(v))
}

/// How many active validators are in `region`.
pub open spec fn count_active_in_region(vals: Seq<ValidatorInfo>, region: u8) -> nat {
    count_where(vals, |v: ValidatorInfo| is_active(v) && v.region_code == region)
}

/// The sum of `f` over the validators.
pub open spec fn sum_of(vals: Seq<ValidatorInfo>, f: spec_fn(ValidatorInfo) -> nat) -> nat
    decreases vals.len(),
{
    if vals.len() == 0 {
        0
    } else {
        sum_of(vals.drop_last(), f) + f(vals.last())
    }
}

/// The validators' stakes added up.
pub open spec fn stake_sum(vals: Seq<ValidatorInfo>) -> nat {
    sum_of(vals, |v: ValidatorInfo| v.stake as nat)
}

/// Whether a validator has key `key`.
pub open spec fn has_key(vals: Seq<ValidatorInfo>, key: [u8; 32]) -> bool {
    exists|i: int| 0 <= i < vals.len() && vals[i].pubkey == key
}

/// The position of the validator with key `key`.
pub open spec fn key_index(vals: Seq<ValidatorInfo>, key: [u8; 32]) -> int {
    choose|i: int| 0 <= i < vals.len() && vals[i].pubkey == key
}

/// No two validators share a key.
pub open spec fn keys_distinct(vals: Seq<ValidatorInfo>) -> bool {
    forall|i: int, j: int| 0 <= i < vals.len() && 0 <= j < vals.len() && i != j ==> vals[i].pubkey != vals[j].pubkey
}

/// `v` with another status.
pub open spec fn with_status(v: ValidatorInfo, status: ValidatorStatus) -> ValidatorInfo {
    ValidatorInfo { status, ..v }
}

/// Whether a pending validator `v` may become active, given the set's validators and active
/// count: enough stake, a recent enough version and, where enforced, room in its region.
pub open spec fn activation_allowed(
    vals: Seq<ValidatorInfo>,
    active: u16,
    geo: GeographicDistribution,
    version: VersionRequirements,
    v: ValidatorInfo,
) -> bool {
    &&& v.stake >= MIN_VALIDATOR_STAKE
    &&& v.version >= version.minimum_version
    &&& (geo.enforce_distribution ==> count_active_in_region(vals, v.region_code) < (active * geo.max_percentage_per_region) / 10000)
}

/// Validators and active count after trying to activate the validator at `index`.
pub open spec fn activate_at(
    vals: Seq<ValidatorInfo>,
    active: u16,
    geo: GeographicDistribution,
    version: VersionRequirements,
    index: int,
) -> (Seq<ValidatorInfo>, u16) {
    if vals[index].status == ValidatorStatus::Pending && activation_allowed(vals, active, geo, version, vals[index]) {
        (vals.update(index, with_status(vals[index], ValidatorStatus::Active)), (active + 1) as u16)
    } else {
        (vals, active)
    }
}

/// Validators and active count after trying to activate the first `k` validators in order.
pub open spec fn activation_pass(
    vals: Seq<ValidatorInfo>,
    active: u16,
    geo: GeographicDistribution,
    version: VersionRequirements,
    k: int,
) -> (Seq<ValidatorInfo>, u16)
    decreases k,
{
    if k <= 0 {
        (vals, active)
    } else {
        let (v, a) = activation_pass(vals, active, geo, version, k - 1);
        activate_at(v, a, geo, version, k - 1)
    }
}

/// Whether an active validator's reputation fell below the threshold.
pub open spec fn underperforming(v: ValidatorInfo, min_reputation: u16) -> bool {
    v.status == ValidatorStatus::Active && v.reputation < min_reputation
}

/// A validator after the deactivation pass.
pub open spec fn after_deactivation(v: ValidatorInfo, min_reputation: u16) -> ValidatorInfo {
    if underperforming(v, min_reputation) { with_status(v, ValidatorStatus::Inactive) } else { v }
}

/// Every validator added by a set is counted with its key, within the limits.
impl ValidatorSet {
    pub open spec fn well_formed(&self) -> bool {
        &&& self.validator_count == self.validators@.len()
        &&& self.validators@.len() <= MAX_VALIDATORS
        &&& keys_distinct(self.validators@)
        &&& self.active_validator_count == count_active(self.validators@)
        &&& self.epoch_history@.len() <= MAX_EPOCH_HISTORY
    }
}

/// Counting after replacing one validator.
pub proof fn lemma_count_update(vals: Seq<ValidatorInfo>, i: int, x: ValidatorInfo, p: spec_fn(ValidatorInfo) -> bool)
    requires
        0 <= i < vals.len(),
    ensures
        count_where(vals.update(i, x), p) + (if p(vals[i]) { 1int } else { 0int })
            == count_where(vals, p) + (if p(x) { 1int } else { 0int }),
    decreases vals.len(),
{
    if i < vals.len() - 1 {
        assert(vals.update(i, x).drop_last() =~= vals.drop_last().update(i, x));
        lemma_count_update(vals.drop_last(), i, x, p);
    } else {
        assert(vals.update(i, x).drop_last() =~= vals.drop_last());
    }
}

/// A count never exceeds the number of validators.
pub proof fn lemma_count_bounded(vals: Seq<ValidatorInfo>, p: spec_fn(ValidatorInfo) -> bool)
    ensures
        count_where(vals, p) <= vals.len(),
    decreases vals.len(),
{
    if vals.len() > 0 {
        lemma_count_bounded(vals.drop_last(), p);
    }
}

/// Summing after replacing one validator.
pub proof fn lemma_sum_update(vals: Seq<ValidatorInfo>, i: int, x: ValidatorInfo, f: spec_fn(ValidatorInfo) -> nat)
    requires
        0 <= i < vals.len(),
    ensures
        sum_of(vals.update(i, x), f) + f(vals[i]) == sum_of(vals, f) + f(x),
    decreases vals.len(),
{
    if i < vals.len() - 1 {
        assert(vals.update(i, x).drop_last() =~= vals.drop_last().update(i, x));
        lemma_sum_update(vals.drop_last(), i, x, f);
    } else {
        assert(vals.update(i, x).drop_last() =~= vals.drop_last());
    }
}

/// A sum is at least each of its terms.
pub proof fn lemma_sum_ge_term(vals: Seq<ValidatorInfo>, i: int, f: spec_fn(ValidatorInfo) -> nat)
    requires
        0 <= i < vals.len(),
    ensures
        sum_of(vals, f) >= f(vals[i]),
    decreases vals.len(),
{
    if i < vals.len() - 1 {
        lemma_sum_ge_term(vals.drop_last(), i, f);
    }
}

/// A sum of terms each at most `bound` is at most `bound` times their number.
pub proof fn lemma_sum_bounded(vals: Seq<ValidatorInfo>, f: spec_fn(ValidatorInfo) -> nat, bound: nat)
    requires
        forall|i: int| 0 <= i < vals.len() ==> f(#[trigger] vals[i]) <= bound,
    ensures
        sum_of(vals, f) <= vals.len() * bound,
    decreases vals.len(),
{
    if vals.len() > 0 {
        assert forall|i: int| 0 <= i < vals.drop_last().len() implies f(#[trigger] vals.drop_last()[i]) <= bound by {
            assert(vals.drop_last()[i] == vals[i]);
        }
        lemma_sum_bounded(vals.drop_last(), f, bound);
        assert(f(vals.last()) <= bound);
        assert((vals.len() - 1) * bound + bound == vals.len() * bound) by (nonlinear_arith);
    }
}

/// The position of a key, if a validator has it.
fn find_key(vals: &Vec<ValidatorInfo>, key: &[u8; 32]) -> (res: Option<usize>)
    ensures
        res matches Some(i) ==> i < vals@.len() && vals@[i as int].pubkey == *key,
        res is None ==> !has_key(vals@, *key),
{
    let mut i: usize = 0;
    while i < vals.len()
        invariant
            i <= vals@.len(),
            forall|j: int| 0 <= j < i ==> vals@[j].pubkey != *key,
        decreases vals.len() - i,
    {
        if bytes32_eq(&vals[i].pubkey, key) {
            return Some(i);
        }
        i = i + 1;
    }
    None
}

/// With distinct keys, a validator holding a key is at the key's position.
pub proof fn lemma_key_index_unique(vals: Seq<ValidatorInfo>, key: [u8; 32], i: int)
    requires
        keys_distinct(vals),
        0 <= i < vals.len(),
        vals[i].pubkey == key,
    ensures
        key_index(vals, key) == i,
{
    let k = key_index(vals, key);
    assert(0 <= k < vals.len() && vals[k].pubkey == key);
}

/// The record of a validator that has just joined.
pub open spec fn joining_validator(
    pubkey: [u8; 32],
    stake: u64,
    network_id: u8,
    commission_rate: u16,
    region_code: u8,
    now: i64,
    version: u32,
) -> ValidatorInfo {
    ValidatorInfo {
        pubkey,
        stake,
        status: ValidatorStatus::Pending,
        successful_validations: 0,
        failed_validations: 0,
        joined_at: now,
        last_activity: now,
        reputation: 500,
        slash_count: 0,
        total_rewards: 0,
        network_id,
        commission_rate,
        region_code,
        version,
    }
}

/// The settings of two sets agree.
pub open spec fn same_settings(a: ValidatorSet, b: ValidatorSet) -> bool {
    &&& a.bridge_config == b.bridge_config
    &&& a.consensus_threshold == b.consensus_threshold
    &&& a.rotation_frequency == b.rotation_frequency
    &&& a.slashing_config == b.slashing_config
    &&& a.reward_config == b.reward_config
    &&& a.geo_distribution == b.geo_distribution
    &&& a.version_requirements == b.version_requirements
}

/// The epoch bookkeeping of two sets agrees.
pub open spec fn same_epochs(a: ValidatorSet, b: ValidatorSet) -> bool {
    &&& a.current_epoch == b.current_epoch
    &&& a.next_rotation == b.next_rotation
    &&& a.epoch_history@ == b.epoch_history@
}

impl ValidatorSet {
    /// Sets up an empty validator set with default slashing, reward, distribution and version
    /// settings; the threshold must lie in 51%..=90% and rotation take at least an hour.
    pub fn initialize(
        &mut self,
        bridge_config: [u8; 32],
        consensus_threshold: u16,
        rotation_frequency: u64,
        now: i64,
    ) -> (res: Result<(), BridgeError>)
        requires
            5100 <= consensus_threshold <= 9000 && rotation_frequency >= 3600
                ==> i64::MIN <= now + (rotation_frequency as i64) <= i64::MAX,
        ensures
            !(5100 <= consensus_threshold <= 9000) ==> res == Err::<(), BridgeError>(BridgeError::InvalidConsensusThreshold),
            5100 <= consensus_threshold <= 9000 && rotation_frequency < 3600 ==> res == Err::<(), BridgeError>(
                BridgeError::InvalidRotationFrequency,
            ),
            res is Err ==> *final(self) == *old(self),
            res is Ok ==> {
                &&& final(self).well_formed()
                &&& final(self).bridge_config == bridge_config
                &&& final(self).current_epoch == 0
                &&& final(self).validator_count == 0
                &&& final(self).active_validator_count == 0
                &&& final(self).total_stake == 0
                &&& final(self).consensus_threshold == consensus_threshold
                &&& final(self).last_updated == now
                &&& final(self).rotation_frequency == rotation_frequency
                &&& final(self).next_rotation == now + (rotation_frequency as i64)
                &&& final(self).validators@.len() == 0
                &&& final(self).epoch_history@.len() == 0
                &&& final(self).slashing_config.max_slashes_before_ban == 3
                &&& final(self).slashing_config.min_reputation_threshold == 200
                &&& final(self).slashing_config.double_signing_slash_rate == 500
                &&& final(self).slashing_config.unavailability_slash_rate == 100
                &&& final(self).slashing_config.invalid_signature_slash_rate == 200
                &&& final(self).slashing_config.malicious_behavior_slash_rate == 1000
                &&& final(self).reward_config.base_reward_per_validation == 1000
                &&& final(self).geo_distribution.enforce_distribution
                &&& final(self).geo_distribution.max_percentage_per_region == 3000
                &&& final(self).version_requirements.minimum_version == 1
            },
    {
        if !(consensus_threshold >= 5100 && consensus_threshold <= 9000) {
            return Err(BridgeError::InvalidConsensusThreshold);
        }
        if rotation_frequency < 3600 {
            return Err(BridgeError::InvalidRotationFrequency);
        }
        self.bridge_config = bridge_config;
        self.current_epoch = 0;
        self.validator_count = 0;
        self.active_validator_count = 0;
        self.total_stake = 0;
        self.consensus_threshold = consensus_threshold;
        self.last_updated = now;
        self.rotation_frequency = rotation_frequency;
        self.next_rotation = now + rotation_frequency as i64;
        self.validators = Vec::with_capacity(MAX_VALIDATORS);
        self.epoch_history = Vec::with_capacity(MAX_EPOCH_HISTORY);
        self.slashing_config = SlashingConfig::default();
        self.reward_config = RewardConfig::default();
        self.geo_distribution = GeographicDistribution::default();
        self.version_requirements = VersionRequirements::default();
        proof {
            assert(count_active(self.validators@) == 0);
        }
        Ok(())
    }

    /// Whether `validator` may become active in this set: enough stake, a recent enough
    /// version and, where enforced, fewer active validators in its region than the region's
    /// share of the active count.
    pub fn check_activation_requirements(&self, validator: &ValidatorInfo) -> (res: Result<bool, BridgeError>)
        requires
            self.validators@.len() <= MAX_VALIDATORS,
        ensures
            res == Ok::<bool, BridgeError>(
                activation_allowed(self.validators@, self.active_validator_count, self.geo_distribution, self.version_requirements, *validator),
            ),
    {
        if validator.stake < MIN_VALIDATOR_STAKE {
            return Ok(false);
        }
        if validator.version < self.version_requirements.minimum_version {
            return Ok(false);
        }
        if self.geo_distribution.enforce_distribution {
            let region = validator.region_code;
            let mut region_count: usize = 0;
            let mut i: usize = 0;
            while i < self.validators.len()
                invariant
                    i <= self.validators@.len() <= MAX_VALIDATORS,
                    region_count == count_active_in_region(self.validators@.take(i as int), region),
                    region_count <= i,
                decreases self.validators.len() - i,
            {
                let v = self.validators[i];
                assert(self.validators@.take(i + 1).drop_last() =~= self.validators@.take(i as int));
                if v.status == ValidatorStatus::Active && v.region_code == region {
                    region_count = region_count + 1;
                }
                i = i + 1;
            }
            assert(self.validators@.take(self.validators@.len() as int) =~= self.validators@);
            let a = self.active_validator_count;
            let m = self.geo_distribution.max_percentage_per_region;
            assert(a * m <= 65535 * 65535) by (nonlinear_arith)
                requires
                    a <= 65535,
                    m <= 65535,
            ;
            let max_per_region = (self.active_validator_count as usize * self.geo_distribution.max_percentage_per_region as usize) / 10000;
            if region_count >= max_per_region {
                return Ok(false);
            }
        }
        Ok(true)
    }

    /// Activates the pending validator at `index` if it meets the activation requirements.
    pub fn try_activate_validator(&mut self, index: usize, now: i64) -> (res: Result<(), BridgeError>)
        requires
            old(self).well_formed(),
            index < old(self).validators@.len() && old(self).validators@[index as int].status == ValidatorStatus::Pending
                && activation_allowed(old(self).validators@, old(self).active_validator_count, old(self).geo_distribution,
                old(self).version_requirements, old(self).validators@[index as int])
                ==> old(self).active_validator_count < u16::MAX,
        ensures
            final(self).well_formed(),
            index >= old(self).validators@.len() ==> res == Err::<(), BridgeError>(BridgeError::ValidatorNotFound)
                && *final(self) == *old(self),
            index < old(self).validators@.len() ==> {
                let (vals, active) = activate_at(old(self).validators@, old(self).active_validator_count,
                    old(self).geo_distribution, old(self).version_requirements, index as int);
                &&& res is Ok
                &&& final(self).validators@ == vals
                &&& final(self).active_validator_count == active
                &&& final(self).last_updated == (if active != old(self).active_validator_count { now } else { old(self).last_updated })
            },
            same_settings(*final(self), *old(self)),
            same_epochs(*final(self), *old(self)),
            final(self).validator_count == old(self).validator_count,
            final(self).total_stake == old(self).total_stake,
            stake_sum(final(self).validators@) == stake_sum(old(self).validators@),
    {
        if index >= self.validators.len() {
            return Err(BridgeError::ValidatorNotFound);
        }
        let v = self.validators[index];
        if v.status != ValidatorStatus::Pending {
            return Ok(());
        }
        let allowed = match self.check_activation_requirements(&v) {
            Ok(b) => b,
            Err(e) => { return Err(e); },
        };
        if allowed {
            let mut activated = v;
            activated.status = ValidatorStatus::Active;
            proof {
                lemma_count_update(self.validators@, index as int, activated, |x: ValidatorInfo| is_active(x));
                lemma_sum_update(self.validators@, index as int, activated, |x: ValidatorInfo| x.stake as nat);
                assert(activated == with_status(v, ValidatorStatus::Active));
            }
            self.validators.set(index, activated);
            self.active_validator_count = self.active_validator_count + 1;
            self.last_updated = now;
        }
        Ok(())
    }

    /// Adds a validator with at least the minimum stake and a commission of at most 100%,
    /// then tries to activate it.
    pub fn add_validator(
        &mut self,
        validator_pubkey: [u8; 32],
        stake: u64,
        network_id: u8,
        commission_rate: u16,
        region_code: u8,
        now: i64,
    ) -> (res: Result<(), BridgeError>)
        requires
            old(self).well_formed(),
            old(self).validator_count < MAX_VALIDATORS && stake >= MIN_VALIDATOR_STAKE && commission_rate <= 10000
                && !has_key(old(self).validators@, validator_pubkey) ==> {
                &&& old(self).total_stake + stake <= u64::MAX
                &&& old(self).active_validator_count < u16::MAX
            },
        ensures
            final(self).well_formed(),
            res == (if old(self).validator_count >= MAX_VALIDATORS {
                Err::<(), BridgeError>(BridgeError::ValidatorSetFull)
            } else if stake < MIN_VALIDATOR_STAKE {
                Err(BridgeError::InsufficientStake)
            } else if commission_rate > 10000 {
                Err(BridgeError::InvalidCommissionRate)
            } else if has_key(old(self).validators@, validator_pubkey) {
                Err(BridgeError::ValidatorAlreadyExists)
            } else {
                Ok(())
            }),
            res is Err ==> *final(self) == *old(self),
            res is Ok ==> {
                let joined = joining_validator(validator_pubkey, stake, network_id, commission_rate, region_code, now,
                    old(self).version_requirements.minimum_version);
                let (vals, active) = activate_at(old(self).validators@.push(joined), old(self).active_validator_count,
                    old(self).geo_distribution, old(self).version_requirements, old(self).validators@.len() as int);
                &&& final(self).validators@ == vals
                &&& final(self).active_validator_count == active
                &&& final(self).validator_count == old(self).validator_count + 1
                &&& final(self).total_stake == old(self).total_stake + stake
                &&& final(self).last_updated == now
                &&& stake_sum(final(self).validators@) == stake_sum(old(self).validators@) + stake
            },
            same_settings(*final(self), *old(self)),
            same_epochs(*final(self), *old(self)),
    {
        if self.validator_count >= MAX_VALIDATORS as u16 {
            return Err(BridgeError::ValidatorSetFull);
        }
        if stake < MIN_VALIDATOR_STAKE {
            return Err(BridgeError::InsufficientStake);
        }
        if commission_rate > 10000 {
            return Err(BridgeError::InvalidCommissionRate);
        }
        if find_key(&self.validators, &validator_pubkey).is_some() {
            return Err(BridgeError::ValidatorAlreadyExists);
        }
        let validator_info = ValidatorInfo {
            pubkey: validator_pubkey,
            stake,
            status: ValidatorStatus::Pending,
            successful_validations: 0,
            failed_validations: 0,
            joined_at: now,
            last_activity: now,
            reputation: 500,
            slash_count: 0,
            total_rewards: 0,
            network_id,
            commission_rate,
            region_code,
            version: self.version_requirements.minimum_version,
        };
        let index = self.validators.len();
        let ghost before = self.validators@;
        self.validators.push(validator_info);
        proof {
            assert(self.validators@.drop_last() =~= before);
            assert(count_active(self.validators@) == count_active(before));
            assert(stake_sum(self.validators@) == stake_sum(before) + stake);
            assert(keys_distinct(self.validators@)) by {
                assert forall|i: int, j: int| 0 <= i < self.validators@.len() && 0 <= j < self.validators@.len() && i != j
                    implies self.validators@[i].pubkey != self.validators@[j].pubkey by {
                    if i < before.len() && j < before.len() {
                        assert(before[i] == self.validators@[i] && before[j] == self.validators@[j]);
                    } else if i < before.len() {
                        assert(before[i] == self.validators@[i]);
                    } else if j < before.len() {
                        assert(before[j] == self.validators@[j]);
                    }
                }
            }
        }
        self.validator_count = self.validator_count + 1;
        self.total_stake = self.total_stake + stake;
        self.last_updated = now;
        match self.try_activate_validator(index, now) {
            Ok(()) => {},
            Err(e) => { return Err(e); },
        }
        Ok(())
    }
}

/// Moving the last element into position `i` and dropping the last removes one copy of the
/// element at `i`, as a multiset.
pub proof fn lemma_swap_remove_multiset<A>(s: Seq<A>, i: int)
    requires
        0 <= i < s.len(),
    ensures
        s.update(i, s.last()).drop_last().to_multiset() == s.to_multiset().remove(s[i]),
{
    broadcast use vstd::seq_lib::group_to_multiset_ensures;
    let last = s.last();
    let u = s.update(i, last);
    assert(u.len() == s.len());
    let t = u.drop_last();
    vstd::seq_lib::to_multiset_update(s, i, last);
    assert(u =~= t.push(last));
    vstd::seq_lib::to_multiset_build(t, last);
    assert(s.contains(s[i]));
    assert(s.to_multiset().count(s[i]) > 0);
    assert forall|x: A| #[trigger] t.to_multiset().count(x) == s.to_multiset().remove(s[i]).count(x) by {
        assert(u.to_multiset().count(x) == t.to_multiset().insert(last).count(x));
        assert(u.to_multiset().count(x) == s.to_multiset().insert(last).remove(s[i]).count(x));
    }
    assert(t.to_multiset() =~= s.to_multiset().remove(s[i]));
}

/// Counting after swapping the last validator into position `i` and dropping the last.
pub proof fn lemma_count_swap_remove(vals: Seq<ValidatorInfo>, i: int, p: spec_fn(ValidatorInfo) -> bool)
    requires
        0 <= i < vals.len(),
    ensures
        count_where(vals.update(i, vals.last()).drop_last(), p) + (if p(vals[i]) { 1int } else { 0int })
            == count_where(vals, p),
{
    lemma_count_update(vals, i, vals.last(), p);
}

/// Summing after swapping the last validator into position `i` and dropping the last.
pub proof fn lemma_sum_swap_remove(vals: Seq<ValidatorInfo>, i: int, f: spec_fn(ValidatorInfo) -> nat)
    requires
        0 <= i < vals.len(),
    ensures
        sum_of(vals.update(i, vals.last()).drop_last(), f) + f(vals[i]) == sum_of(vals, f),
{
    lemma_sum_update(vals, i, vals.last(), f);
}

/// The stake rate, in basis points, of a kind of misbehaviour.
pub open spec fn slash_rate(config: SlashingConfig, slash_type: SlashType) -> u16 {
    match slash_type {
        SlashType::DoubleSigning => config.double_signing_slash_rate,
        SlashType::Unavailability => config.unavailability_slash_rate,
        SlashType::InvalidSignature => config.invalid_signature_slash_rate,
        SlashType::Malicious => config.malicious_behavior_slash_rate,
    }
}

/// The validators' voting powers added up.
pub open spec fn power_sum(vals: Seq<ValidatorInfo>) -> nat {
    sum_of(vals, |v: ValidatorInfo| voting_power(v) as nat)
}

/// The voting power of the validators whose keys are among `signers`, each validator counted
/// once however often its key is listed; keys of no validator count nothing.
pub open spec fn signed_power(vals: Seq<ValidatorInfo>, signers: Seq<[u8; 32]>) -> nat {
    sum_of(vals, |v: ValidatorInfo| if signers.contains(v.pubkey) { voting_power(v) as nat } else { 0nat })
}

/// Whether `key` is among `keys`.
fn key_listed(keys: &[[u8; 32]], key: &[u8; 32]) -> (r: bool)
    ensures
        r == keys@.contains(*key),
{
    let mut i: usize = 0;
    while i < keys.len()
        invariant
            i <= keys@.len(),
            forall|j: int| 0 <= j < i ==> keys@[j] != *key,
        decreases keys.len() - i,
    {
        if bytes32_eq(&keys[i], key) {
            assert(keys@[i as int] == *key);
            return true;
        }
        i = i + 1;
    }
    false
}

/// Consensus does not depend on how often a signer is listed: listing a signer again leaves
/// the signed power unchanged.
pub proof fn law_consensus_ignores_repeats(vals: Seq<ValidatorInfo>, signers: Seq<[u8; 32]>, k: int)
    requires
        0 <= k < signers.len(),
    ensures
        signed_power(vals, signers.push(signers[k])) == signed_power(vals, signers),
{
    let longer = signers.push(signers[k]);
    assert forall|key: [u8; 32]| longer.contains(key) == signers.contains(key) by {
        if longer.contains(key) {
            let j = choose|j: int| 0 <= j < longer.len() && longer[j] == key;
            if j == signers.len() {
                assert(signers[k] == key);
            } else {
                assert(signers[j] == key);
            }
        }
        if signers.contains(key) {
            let j = choose|j: int| 0 <= j < signers.len() && signers[j] == key;
            assert(longer[j] == key);
        }
    }
    let f = |v: ValidatorInfo| if longer.contains(v.pubkey) { voting_power(v) as nat } else { 0nat };
    let g = |v: ValidatorInfo| if signers.contains(v.pubkey) { voting_power(v) as nat } else { 0nat };
    assert(f =~= g);
}

/// A voting power is never negative.
pub proof fn lemma_voting_power_nonneg(v: ValidatorInfo)
    ensures
        voting_power(v) >= 0,
{
    if v.status == ValidatorStatus::Active {
        let base = v.stake / 1_000_000;
        let rep = if v.reputation < 1000 { v.reputation as int } else { 1000 };
        assert(base * rep >= 0) by (nonlinear_arith)
            requires
                base >= 0,
                rep >= 0,
        ;
    }
}

impl ValidatorSet {
    /// Removes the validator with key `validator_pubkey` (the last validator takes its place)
    /// and returns its stake.
    pub fn remove_validator(&mut self, validator_pubkey: [u8; 32], now: i64) -> (res: Result<u64, BridgeError>)
        requires
            old(self).well_formed(),
            has_key(old(self).validators@, validator_pubkey) ==> old(self).total_stake
                >= old(self).validators@[key_index(old(self).validators@, validator_pubkey)].stake,
        ensures
            final(self).well_formed(),
            !has_key(old(self).validators@, validator_pubkey) ==> res == Err::<u64, BridgeError>(BridgeError::ValidatorNotFound)
                && *final(self) == *old(self),
            has_key(old(self).validators@, validator_pubkey) ==> {
                let vals = old(self).validators@;
                let i = key_index(vals, validator_pubkey);
                &&& res == Ok::<u64, BridgeError>(vals[i].stake)
                &&& final(self).validators@ == vals.update(i, vals.last()).drop_last()
                &&& final(self).active_validator_count == old(self).active_validator_count - (if is_active(vals[i]) { 1int } else { 0int })
                &&& final(self).validator_count == old(self).validator_count - 1
                &&& final(self).total_stake == old(self).total_stake - vals[i].stake
                &&& final(self).last_updated == now
                &&& stake_sum(final(self).validators@) + vals[i].stake == stake_sum(vals)
                &&& final(self).validators@.to_multiset() == vals.to_multiset().remove(vals[i])
                &&& !has_key(final(self).validators@, validator_pubkey)
            },
            same_settings(*final(self), *old(self)),
            same_epochs(*final(self), *old(self)),
    {
        let index = match find_key(&self.validators, &validator_pubkey) {
            Some(i) => i,
            None => { return Err(BridgeError::ValidatorNotFound); },
        };
        let ghost vals = self.validators@;
        proof {
            lemma_key_index_unique(vals, validator_pubkey, index as int);
            lemma_count_swap_remove(vals, index as int, |x: ValidatorInfo| is_active(x));
            lemma_sum_swap_remove(vals, index as int, |x: ValidatorInfo| x.stake as nat);
            lemma_swap_remove_multiset(vals, index as int);
        }
        let validator = self.validators[index];
        let stake_to_return = validator.stake;
        if validator.status == ValidatorStatus::Active {
            self.active_validator_count = self.active_validator_count - 1;
        }
        self.validator_count = self.validator_count - 1;
        self.total_stake = self.total_stake - validator.stake;
        self.validators.swap_remove(index);
        proof {
            let nv = self.validators@;
            assert forall|a: int, b: int| 0 <= a < nv.len() && 0 <= b < nv.len() && a != b
                implies nv[a].pubkey != nv[b].pubkey by {
                let ia = if a == index { vals.len() - 1 } else { a };
                let ib = if b == index { vals.len() - 1 } else { b };
                assert(nv[a] == vals[ia]);
                assert(nv[b] == vals[ib]);
            }
            assert forall|a: int| 0 <= a < nv.len() implies nv[a].pubkey != validator_pubkey by {
                let ia = if a == index { vals.len() - 1 } else { a };
                assert(nv[a] == vals[ia]);
            }
        }
        self.last_updated = now;
        Ok(stake_to_return)
    }

    /// The stake that a kind of misbehaviour costs a validator: its stake times the rate of
    /// that kind, in basis points.
    pub fn calculate_slash_amount(&self, validator: &ValidatorInfo, slash_type: &SlashType) -> (amount: u64)
        requires
            validator.stake * slash_rate(self.slashing_config, *slash_type) <= u64::MAX,
        ensures
            amount == validator.stake * slash_rate(self.slashing_config, *slash_type) / 10000,
    {
        let base_stake = validator.stake;
        let slash_percentage = match slash_type {
            SlashType::DoubleSigning => self.slashing_config.double_signing_slash_rate,
            SlashType::Unavailability => self.slashing_config.unavailability_slash_rate,
            SlashType::InvalidSignature => self.slashing_config.invalid_signature_slash_rate,
            SlashType::Malicious => self.slashing_config.malicious_behavior_slash_rate,
        };
        (base_stake * slash_percentage as u64) / 10000
    }

    /// Slashes the validator with key `validator_pubkey`: it loses the slash amount of its
    /// stake and 100 reputation, and is banned once slashed too often. Returns the amount.
    pub fn slash_validator(&mut self, validator_pubkey: [u8; 32], slash_type: SlashType, now: i64) -> (res: Result<u64, BridgeError>)
        requires
            old(self).well_formed(),
            has_key(old(self).validators@, validator_pubkey) ==> old(self).validators@[key_index(old(self).validators@, validator_pubkey)].stake
                * slash_rate(old(self).slashing_config, slash_type) <= u64::MAX,
        ensures
            final(self).well_formed(),
            !has_key(old(self).validators@, validator_pubkey) ==> res == Err::<u64, BridgeError>(BridgeError::ValidatorNotFound)
                && *final(self) == *old(self),
            has_key(old(self).validators@, validator_pubkey) ==> {
                let vals = old(self).validators@;
                let i = key_index(vals, validator_pubkey);
                let v = vals[i];
                let amount = v.stake * slash_rate(old(self).slashing_config, slash_type) / 10000;
                let count = if v.slash_count == 255 { 255u8 } else { (v.slash_count + 1) as u8 };
                &&& res == Ok::<u64, BridgeError>(amount as u64)
                &&& final(self).validators@ == vals.update(i, ValidatorInfo {
                    status: if count >= old(self).slashing_config.max_slashes_before_ban {
                        ValidatorStatus::Banned
                    } else {
                        ValidatorStatus::Slashed
                    },
                    slash_count: count,
                    stake: if v.stake < amount { 0 } else { (v.stake - amount) as u64 },
                    reputation: if v.reputation < 100 { 0 } else { (v.reputation - 100) as u16 },
                    ..v
                })
                &&& final(self).total_stake == (if old(self).total_stake < amount { 0 } else { old(self).total_stake - amount })
                &&& final(self).active_validator_count == old(self).active_validator_count - (if is_active(v) { 1int } else { 0int })
                &&& final(self).validator_count == old(self).validator_count
                &&& final(self).last_updated == now
                &&& (old(self).total_stake == stake_sum(vals) && slash_rate(old(self).slashing_config, slash_type) <= 10000
                    ==> final(self).total_stake == stake_sum(final(self).validators@))
            },
            same_settings(*final(self), *old(self)),
            same_epochs(*final(self), *old(self)),
    {
        let index = match find_key(&self.validators, &validator_pubkey) {
            Some(i) => i,
            None => { return Err(BridgeError::ValidatorNotFound); },
        };
        let ghost vals = self.validators@;
        proof {
            lemma_key_index_unique(vals, validator_pubkey, index as int);
        }
        let mut validator = self.validators[index];
        let was_active = validator.status == ValidatorStatus::Active;
        let slash_amount = self.calculate_slash_amount(&validator, &slash_type);
        validator.status = ValidatorStatus::Slashed;
        validator.slash_count = validator.slash_count.saturating_add(1);
        validator.stake = validator.stake.saturating_sub(slash_amount);
        validator.reputation = validator.reputation.saturating_sub(100);
        if validator.slash_count >= self.slashing_config.max_slashes_before_ban {
            validator.status = ValidatorStatus::Banned;
        }
        proof {
            lemma_count_update(vals, index as int, validator, |x: ValidatorInfo| is_active(x));
            lemma_sum_update(vals, index as int, validator, |x: ValidatorInfo| x.stake as nat);
            lemma_sum_ge_term(vals, index as int, |x: ValidatorInfo| x.stake as nat);
            let rate = slash_rate(self.slashing_config, slash_type);
            if rate <= 10000 {
                assert(vals[index as int].stake * rate / 10000 <= vals[index as int].stake) by (nonlinear_arith)
                    requires
                        rate <= 10000,
                ;
            }
        }
        self.validators.set(index, validator);
        proof {
            let nv = self.validators@;
            assert forall|a: int, b: int| 0 <= a < nv.len() && 0 <= b < nv.len() && a != b
                implies nv[a].pubkey != nv[b].pubkey by {
                assert(nv[a].pubkey == vals[a].pubkey);
                assert(nv[b].pubkey == vals[b].pubkey);
            }
        }
        if was_active {
            self.active_validator_count = self.active_validator_count - 1;
        }
        self.total_stake = self.total_stake.saturating_sub(slash_amount);
        self.last_updated = now;
        Ok(slash_amount)
    }

    /// Sets the stake of the validator with key `validator_pubkey`; an active validator whose
    /// stake falls below the minimum is deactivated.
    pub fn update_validator_stake(&mut self, validator_pubkey: [u8; 32], new_stake: u64, now: i64) -> (res: Result<(), BridgeError>)
        requires
            old(self).well_formed(),
        ensures
            final(self).well_formed(),
            !has_key(old(self).validators@, validator_pubkey) ==> res == Err::<(), BridgeError>(BridgeError::ValidatorNotFound)
                && *final(self) == *old(self),
            has_key(old(self).validators@, validator_pubkey) ==> {
                let vals = old(self).validators@;
                let i = key_index(vals, validator_pubkey);
                let v = vals[i];
                let deactivate = new_stake < MIN_VALIDATOR_STAKE && is_active(v);
                let reduced = if old(self).total_stake < v.stake { 0 } else { old(self).total_stake - v.stake };
                &&& res is Ok
                &&& final(self).validators@ == vals.update(i, ValidatorInfo {
                    stake: new_stake,
                    status: if deactivate { ValidatorStatus::Inactive } else { v.status },
                    ..v
                })
                &&& final(self).total_stake == (if reduced + new_stake > u64::MAX { u64::MAX as int } else { reduced + new_stake })
                &&& final(self).active_validator_count == old(self).active_validator_count - (if deactivate { 1int } else { 0int })
                &&& final(self).validator_count == old(self).validator_count
                &&& final(self).last_updated == now
                &&& (old(self).total_stake == stake_sum(vals) && stake_sum(final(self).validators@) <= u64::MAX
                    ==> final(self).total_stake == stake_sum(final(self).validators@))
            },
            same_settings(*final(self), *old(self)),
            same_epochs(*final(self), *old(self)),
    {
        let index = match find_key(&self.validators, &validator_pubkey) {
            Some(i) => i,
            None => { return Err(BridgeError::ValidatorNotFound); },
        };
        let ghost vals = self.validators@;
        proof {
            lemma_key_index_unique(vals, validator_pubkey, index as int);
        }
        let mut validator = self.validators[index];
        let old_stake = validator.stake;
        validator.stake = new_stake;
        self.total_stake = self.total_stake.saturating_sub(old_stake).saturating_add(new_stake);
        let deactivate = new_stake < MIN_VALIDATOR_STAKE && validator.status == ValidatorStatus::Active;
        if deactivate {
            validator.status = ValidatorStatus::Inactive;
        }
        proof {
            lemma_count_update(vals, index as int, validator, |x: ValidatorInfo| is_active(x));
            lemma_sum_update(vals, index as int, validator, |x: ValidatorInfo| x.stake as nat);
            lemma_sum_ge_term(vals, index as int, |x: ValidatorInfo| x.stake as nat);
        }
        if deactivate {
            self.active_validator_count = self.active_validator_count - 1;
        }
        self.validators.set(index, validator);
        proof {
            let nv = self.validators@;
            assert forall|a: int, b: int| 0 <= a < nv.len() && 0 <= b < nv.len() && a != b
                implies nv[a].pubkey != nv[b].pubkey by {
                assert(nv[a].pubkey == vals[a].pubkey);
                assert(nv[b].pubkey == vals[b].pubkey);
            }
        }
        self.last_updated = now;
        Ok(())
    }

    /// The validator with key `validator_pubkey`, if any.
    pub fn get_validator(&self, validator_pubkey: &[u8; 32]) -> (res: Option<&ValidatorInfo>)
        requires
            self.well_formed(),
        ensures
            !has_key(self.validators@, *validator_pubkey) ==> res is None,
            has_key(self.validators@, *validator_pubkey) ==> res == Some(&self.validators@[key_index(self.validators@, *validator_pubkey)]),
    {
        match find_key(&self.validators, validator_pubkey) {
            Some(i) => {
                proof {
                    lemma_key_index_unique(self.validators@, *validator_pubkey, i as int);
                }
                Some(&self.validators[i])
            },
            None => None,
        }
    }

    /// Whether the signers hold at least the consensus threshold (in basis points) of the
    /// active validators' voting power; each active validator counts once, however often its
    /// key is listed.
    pub fn check_consensus(&self, signers: &[[u8; 32]]) -> (res: Result<bool, BridgeError>)
        requires
            self.well_formed(),
            signed_power(self.validators@, signers@) * 10000 <= u64::MAX,
        ensures
            res == Ok::<bool, BridgeError>(
                power_sum(self.validators@) != 0 && signed_power(self.validators@, signers@) * 10000
                    / power_sum(self.validators@) >= self.consensus_threshold,
            ),
    {
        let ghost vals = self.validators@;
        let ghost listed = signers@;
        let mut total_voting_power: u64 = 0;
        let mut signer_voting_power: u64 = 0;
        let mut i: usize = 0;
        while i < self.validators.len()
            invariant
                vals == self.validators@,
                listed == signers@,
                i <= vals.len() <= MAX_VALIDATORS,
                total_voting_power == power_sum(vals.take(i as int)),
                signer_voting_power == signed_power(vals.take(i as int), listed),
                total_voting_power <= i * MAX_VOTING_POWER,
                signer_voting_power <= total_voting_power,
            decreases self.validators.len() - i,
        {
            let v = self.validators[i];
            assert(vals.take(i + 1).drop_last() =~= vals.take(i as int));
            assert(vals.take(i + 1).last() == v);
            if v.status == ValidatorStatus::Active {
                let power = v.calculate_voting_power();
                total_voting_power = total_voting_power + power;
                if key_listed(signers, &v.pubkey) {
                    signer_voting_power = signer_voting_power + power;
                }
            } else {
                assert(voting_power(v) == 0);
            }
            i = i + 1;
        }
        assert(vals.take(vals.len() as int) =~= vals);
        if total_voting_power == 0 {
            return Ok(false);
        }
        let consensus_percentage = (signer_voting_power * 10000) / total_voting_power;
        Ok(consensus_percentage >= self.consensus_threshold as u64)
    }
}

/// How many active validators fell below the reputation threshold.
pub open spec fn count_underperforming(vals: Seq<ValidatorInfo>, min_reputation: u16) -> nat {
    count_where(vals, |v: ValidatorInfo| underperforming(v, min_reputation))
}

/// All validations of the validators added up.
pub open spec fn validations_sum(vals: Seq<ValidatorInfo>) -> nat {
    sum_of(vals, |v: ValidatorInfo| (v.successful_validations + v.failed_validations) as nat)
}

/// The successful validations of the validators added up.
pub open spec fn successful_sum(vals: Seq<ValidatorInfo>) -> nat {
    sum_of(vals, |v: ValidatorInfo| v.successful_validations as nat)
}

/// The rewards of the validators added up.
pub open spec fn rewards_sum(vals: Seq<ValidatorInfo>) -> nat {
    sum_of(vals, |v: ValidatorInfo| v.total_rewards as nat)
}

/// The reputations of the validators added up.
pub open spec fn reputation_sum(vals: Seq<ValidatorInfo>) -> nat {
    sum_of(vals, |v: ValidatorInfo| v.reputation as nat)
}

/// A sum over a prefix never exceeds the sum over the whole.
pub proof fn lemma_sum_prefix(vals: Seq<ValidatorInfo>, k: int, f: spec_fn(ValidatorInfo) -> nat)
    requires
        0 <= k <= vals.len(),
    ensures
        sum_of(vals.take(k), f) <= sum_of(vals, f),
    decreases vals.len() - k,
{
    if k < vals.len() {
        lemma_sum_prefix(vals, k + 1, f);
        assert(vals.take(k + 1).drop_last() =~= vals.take(k));
    } else {
        assert(vals.take(k) =~= vals);
    }
}

/// The activation pass keeps the number of validators, their keys and stakes, and adds at
/// most one active validator per step.
pub proof fn lemma_activation_pass(
    vals: Seq<ValidatorInfo>,
    active: u16,
    geo: GeographicDistribution,
    version: VersionRequirements,
    k: int,
)
    requires
        0 <= k <= vals.len(),
        active + k <= u16::MAX,
    ensures
        activation_pass(vals, active, geo, version, k).0.len() == vals.len(),
        activation_pass(vals, active, geo, version, k).1 <= active + k,
        activation_pass(vals, active, geo, version, k).1 >= active,
        forall|j: int| 0 <= j < vals.len() ==> (#[trigger] activation_pass(vals, active, geo, version, k).0[j]).pubkey == vals[j].pubkey,
        stake_sum(activation_pass(vals, active, geo, version, k).0) == stake_sum(vals),
        activation_pass(vals, active, geo, version, k).1 - active == count_active(activation_pass(vals, active, geo, version, k).0) - count_active(vals),
    decreases k,
{
    if k > 0 {
        lemma_activation_pass(vals, active, geo, version, k - 1);
        let (v, a) = activation_pass(vals, active, geo, version, k - 1);
        if v[k - 1].status == ValidatorStatus::Pending && activation_allowed(v, a, geo, version, v[k - 1]) {
            let x = with_status(v[k - 1], ValidatorStatus::Active);
            lemma_count_update(v, k - 1, x, |y: ValidatorInfo| is_active(y));
            lemma_sum_update(v, k - 1, x, |y: ValidatorInfo| y.stake as nat);
        }
    }
}

impl ValidatorSet {
    /// All validations recorded by the validators.
    pub fn calculate_total_validations(&self) -> (total: u64)
        requires
            validations_sum(self.validators@) <= u64::MAX,
        ensures
            total == validations_sum(self.validators@),
    {
        let mut total: u64 = 0;
        let mut i: usize = 0;
        while i < self.validators.len()
            invariant
                i <= self.validators@.len(),
                validations_sum(self.validators@) <= u64::MAX,
                total == validations_sum(self.validators@.take(i as int)),
            decreases self.validators.len() - i,
        {
            proof {
                assert(self.validators@.take(i + 1).drop_last() =~= self.validators@.take(i as int));
                lemma_sum_prefix(self.validators@, i + 1, |v: ValidatorInfo| (v.successful_validations + v.failed_validations) as nat);
            }
            let v = self.validators[i];
            total = total + (v.successful_validations + v.failed_validations);
            i = i + 1;
        }
        assert(self.validators@.take(self.validators@.len() as int) =~= self.validators@);
        total
    }

    /// Successful validations recorded by the validators.
    pub fn calculate_successful_validations(&self) -> (total: u64)
        requires
            successful_sum(self.validators@) <= u64::MAX,
        ensures
            total == successful_sum(self.validators@),
    {
        let mut total: u64 = 0;
        let mut i: usize = 0;
        while i < self.validators.len()
            invariant
                i <= self.validators@.len(),
                successful_sum(self.validators@) <= u64::MAX,
                total == successful_sum(self.validators@.take(i as int)),
            decreases self.validators.len() - i,
        {
            proof {
                assert(self.validators@.take(i + 1).drop_last() =~= self.validators@.take(i as int));
                lemma_sum_prefix(self.validators@, i + 1, |v: ValidatorInfo| v.successful_validations as nat);
            }
            total = total + self.validators[i].successful_validations;
            i = i + 1;
        }
        assert(self.validators@.take(self.validators@.len() as int) =~= self.validators@);
        total
    }

    /// Rewards earned by the validators.
    pub fn calculate_epoch_rewards(&self) -> (total: u64)
        requires
            rewards_sum(self.validators@) <= u64::MAX,
        ensures
            total == rewards_sum(self.validators@),
    {
        let mut total: u64 = 0;
        let mut i: usize = 0;
        while i < self.validators.len()
            invariant
                i <= self.validators@.len(),
                rewards_sum(self.validators@) <= u64::MAX,
                total == rewards_sum(self.validators@.take(i as int)),
            decreases self.validators.len() - i,
        {
            proof {
                assert(self.validators@.take(i + 1).drop_last() =~= self.validators@.take(i as int));
                lemma_sum_prefix(self.validators@, i + 1, |v: ValidatorInfo| v.total_rewards as nat);
            }
            total = total + self.validators[i].total_rewards;
            i = i + 1;
        }
        assert(self.validators@.take(self.validators@.len() as int) =~= self.validators@);
        total
    }

    /// The validators' mean reputation, rounded down; zero for an empty set.
    pub fn calculate_average_reputation(&self) -> (avg: u16)
        requires
            self.validators@.len() <= MAX_VALIDATORS,
        ensures
            self.validators@.len() == 0 ==> avg == 0,
            self.validators@.len() > 0 ==> avg == reputation_sum(self.validators@) / self.validators@.len(),
    {
        if self.validators.len() == 0 {
            return 0;
        }
        let mut total: u32 = 0;
        let mut i: usize = 0;
        while i < self.validators.len()
            invariant
                i <= self.validators@.len() <= MAX_VALIDATORS,
                total == reputation_sum(self.validators@.take(i as int)),
                total <= i * 65535,
            decreases self.validators.len() - i,
        {
            assert(self.validators@.take(i + 1).drop_last() =~= self.validators@.take(i as int));
            total = total + self.validators[i].reputation as u32;
            i = i + 1;
        }
        assert(self.validators@.take(self.validators@.len() as int) =~= self.validators@);
        let n = self.validators.len() as u32;
        assert(total / n <= 65535) by (nonlinear_arith)
            requires
                total <= n * 65535,
                n > 0,
        ;
        (total / n) as u16
    }

    /// Tries to activate every pending validator in order, then deactivates the active ones
    /// whose reputation fell below the threshold.
    pub fn adjust_validator_set(&mut self, now: i64) -> (res: Result<(), BridgeError>)
        requires
            old(self).well_formed(),
            old(self).active_validator_count + old(self).validators@.len() <= u16::MAX,
        ensures
            final(self).well_formed(),
            res is Ok,
            ({
                let min = old(self).slashing_config.min_reputation_threshold;
                let (vals, active) = activation_pass(old(self).validators@, old(self).active_validator_count,
                    old(self).geo_distribution, old(self).version_requirements, old(self).validators@.len() as int);
                &&& final(self).validators@ == vals.map_values(|v: ValidatorInfo| after_deactivation(v, min))
                &&& final(self).active_validator_count == active - count_underperforming(vals, min)
                &&& final(self).last_updated == (if active != old(self).active_validator_count { now } else { old(self).last_updated })
            }),
            final(self).validator_count == old(self).validator_count,
            final(self).total_stake == old(self).total_stake,
            stake_sum(final(self).validators@) == stake_sum(old(self).validators@),
            same_settings(*final(self), *old(self)),
            same_epochs(*final(self), *old(self)),
    {
        let ghost orig = *self;
        let n = self.validators.len();
        let mut index: usize = 0;
        while index < n
            invariant
                index <= n == orig.validators@.len(),
                self.well_formed(),
                orig.active_validator_count + n <= u16::MAX,
                (self.validators@, self.active_validator_count) == activation_pass(orig.validators@,
                    orig.active_validator_count, orig.geo_distribution, orig.version_requirements, index as int),
                self.last_updated == (if self.active_validator_count != orig.active_validator_count { now } else { orig.last_updated }),
                self.validator_count == orig.validator_count,
                self.total_stake == orig.total_stake,
                stake_sum(self.validators@) == stake_sum(orig.validators@),
                same_settings(*self, orig),
                same_epochs(*self, orig),
            decreases n - index,
        {
            proof {
                lemma_activation_pass(orig.validators@, orig.active_validator_count, orig.geo_distribution, orig.version_requirements, index as int);
            }
            match self.try_activate_validator(index, now) {
                Ok(()) => {},
                Err(e) => { return Err(e); },
            }
            index = index + 1;
        }
        proof {
            lemma_activation_pass(orig.validators@, orig.active_validator_count, orig.geo_distribution, orig.version_requirements, n as int);
        }
        let ghost (vals1, active1) = activation_pass(orig.validators@, orig.active_validator_count,
            orig.geo_distribution, orig.version_requirements, n as int);
        let min_reputation = self.slashing_config.min_reputation_threshold;
        let mut i: usize = 0;
        while i < n
            invariant
                i <= n == vals1.len() == self.validators@.len(),
                self.well_formed(),
                min_reputation == orig.slashing_config.min_reputation_threshold,
                forall|j: int| 0 <= j < i ==> self.validators@[j] == after_deactivation(#[trigger] vals1[j], min_reputation),
                forall|j: int| i <= j < n ==> self.validators@[j] == vals1[j],
                self.active_validator_count == active1 - count_underperforming(vals1.take(i as int), min_reputation),
                self.last_updated == (if active1 != orig.active_validator_count { now } else { orig.last_updated }),
                self.validator_count == orig.validator_count,
                self.total_stake == orig.total_stake,
                stake_sum(self.validators@) == stake_sum(orig.validators@),
                same_settings(*self, orig),
                same_epochs(*self, orig),
            decreases n - i,
        {
            let v = self.validators[i];
            assert(vals1.take(i + 1).drop_last() =~= vals1.take(i as int));
            if v.status == ValidatorStatus::Active && v.reputation < min_reputation {
                let mut lowered = v;
                lowered.status = ValidatorStatus::Inactive;
                proof {
                    lemma_count_update(self.validators@, i as int, lowered, |x: ValidatorInfo| is_active(x));
                    lemma_sum_update(self.validators@, i as int, lowered, |x: ValidatorInfo| x.stake as nat);
                }
                let ghost before = self.validators@;
                self.validators.set(i, lowered);
                proof {
                    let nv = self.validators@;
                    assert forall|a: int, b: int| 0 <= a < nv.len() && 0 <= b < nv.len() && a != b
                        implies nv[a].pubkey != nv[b].pubkey by {
                        assert(nv[a].pubkey == before[a].pubkey);
                        assert(nv[b].pubkey == before[b].pubkey);
                    }
                }
                self.active_validator_count = self.active_validator_count - 1;
            }
            i = i + 1;
        }
        assert(vals1.take(n as int) =~= vals1);
        assert(self.validators@ =~= vals1.map_values(|v: ValidatorInfo| after_deactivation(v, min_reputation)));
        Ok(())
    }
}

/// The validators' mean reputation, rounded down; zero for none.
pub open spec fn average_reputation(vals: Seq<ValidatorInfo>) -> int {
    if vals.len() == 0 { 0 } else { (reputation_sum(vals) / vals.len()) as int }
}

/// The epoch record written when an epoch ends at `now`.
pub open spec fn closing_epoch(set: ValidatorSet, now: i64) -> EpochInfo {
    EpochInfo {
        epoch: set.current_epoch,
        start_time: set.last_updated,
        end_time: now,
        active_validators: set.active_validator_count,
        total_validations: validations_sum(set.validators@) as u64,
        successful_validations: successful_sum(set.validators@) as u64,
        total_rewards_distributed: rewards_sum(set.validators@) as u64,
        average_reputation: average_reputation(set.validators@) as u16,
    }
}

/// The history after recording an epoch: the last ten epochs.
pub open spec fn history_after(history: Seq<EpochInfo>, info: EpochInfo) -> Seq<EpochInfo> {
    let h = history.push(info);
    if h.len() > MAX_EPOCH_HISTORY { h.drop_first() } else { h }
}

/// Inserts `x` into a sequence after every validator with at least its voting power (and
/// before the others, taken from the end).
pub open spec fn insert_by_power(sorted: Seq<ValidatorInfo>, x: ValidatorInfo) -> Seq<ValidatorInfo>
    decreases sorted.len(),
{
    if sorted.len() == 0 {
        seq![x]
    } else if voting_power(sorted.last()) >= voting_power(x) {
        sorted.push(x)
    } else {
        insert_by_power(sorted.drop_last(), x).push(sorted.last())
    }
}

/// The validators ordered by voting power, highest first; equal powers keep their order.
pub open spec fn by_power(s: Seq<ValidatorInfo>) -> Seq<ValidatorInfo>
    decreases s.len(),
{
    if s.len() == 0 {
        s
    } else {
        insert_by_power(by_power(s.drop_last()), s.last())
    }
}

/// The active validators, in set order.
pub open spec fn active_validators(vals: Seq<ValidatorInfo>) -> Seq<ValidatorInfo> {
    vals.filter(|v: ValidatorInfo| is_active(v))
}

/// Inserting at the position found by scanning back past the weaker validators is inserting
/// by power.
pub proof fn lemma_insert_by_power_at(s: Seq<ValidatorInfo>, x: ValidatorInfo, p: int)
    requires
        0 <= p <= s.len(),
        forall|j: int| p <= j < s.len() ==> voting_power(#[trigger] s[j]) < voting_power(x),
        p > 0 ==> voting_power(s[p - 1]) >= voting_power(x),
    ensures
        insert_by_power(s, x) == s.insert(p, x),
    decreases s.len(),
{
    if s.len() == p {
        assert(s.push(x) =~= s.insert(p, x));
    } else {
        lemma_insert_by_power_at(s.drop_last(), x, p);
        assert(insert_by_power(s.drop_last(), x).push(s.last()) =~= s.insert(p, x));
    }
}

/// Inserting by power adds one element.
pub proof fn lemma_insert_by_power_len(s: Seq<ValidatorInfo>, x: ValidatorInfo)
    ensures
        insert_by_power(s, x).len() == s.len() + 1,
    decreases s.len(),
{
    if s.len() > 0 && voting_power(s.last()) < voting_power(x) {
        lemma_insert_by_power_len(s.drop_last(), x);
    }
}

/// Voting power never rises along the sequence.
pub open spec fn sorted_by_power(s: Seq<ValidatorInfo>) -> bool {
    forall|i: int, j: int| 0 <= i < j < s.len() ==> voting_power(#[trigger] s[i]) >= voting_power(#[trigger] s[j])
}

/// Inserting by power keeps every element at or above a bound that all the inputs meet.
pub proof fn lemma_insert_by_power_bound(s: Seq<ValidatorInfo>, x: ValidatorInfo, b: int)
    requires
        forall|i: int| 0 <= i < s.len() ==> voting_power(#[trigger] s[i]) >= b,
        voting_power(x) >= b,
    ensures
        forall|i: int| 0 <= i < insert_by_power(s, x).len() ==> voting_power(#[trigger] insert_by_power(s, x)[i]) >= b,
    decreases s.len(),
{
    if s.len() > 0 && voting_power(s.last()) < voting_power(x) {
        lemma_insert_by_power_bound(s.drop_last(), x, b);
        let r = insert_by_power(s.drop_last(), x);
        assert forall|i: int| 0 <= i < r.push(s.last()).len() implies voting_power(#[trigger] r.push(s.last())[i]) >= b by {
            if i < r.len() {
                assert(r.push(s.last())[i] == r[i]);
            }
        }
    } else if s.len() > 0 {
        assert forall|i: int| 0 <= i < s.push(x).len() implies voting_power(#[trigger] s.push(x)[i]) >= b by {
            if i < s.len() {
                assert(s.push(x)[i] == s[i]);
            }
        }
    }
}

/// Inserting into a sequence sorted by power keeps it sorted and adds one copy of the element.
pub proof fn lemma_insert_by_power_sorted(s: Seq<ValidatorInfo>, x: ValidatorInfo)
    requires
        sorted_by_power(s),
    ensures
        sorted_by_power(insert_by_power(s, x)),
        insert_by_power(s, x).to_multiset() == s.to_multiset().insert(x),
    decreases s.len(),
{
    broadcast use vstd::seq_lib::group_to_multiset_ensures;
    if s.len() == 0 {
        assert(seq![x] =~= s.push(x));
    } else if voting_power(s.last()) >= voting_power(x) {
        let r = s.push(x);
        assert forall|i: int, j: int| 0 <= i < j < r.len() implies voting_power(#[trigger] r[i]) >= voting_power(#[trigger] r[j]) by {
            assert(r[i] == s[i]);
            if j < s.len() {
                assert(r[j] == s[j]);
            } else {
                if i < s.len() - 1 {
                    assert(voting_power(s[i]) >= voting_power(s[s.len() - 1]));
                }
            }
        }
    } else {
        let d = s.drop_last();
        let last = s.last();
        assert(sorted_by_power(d)) by {
            assert forall|i: int, j: int| 0 <= i < j < d.len() implies voting_power(#[trigger] d[i]) >= voting_power(#[trigger] d[j]) by {
                assert(d[i] == s[i] && d[j] == s[j]);
            }
        }
        lemma_insert_by_power_sorted(d, x);
        let r = insert_by_power(d, x);
        assert forall|i: int| 0 <= i < d.len() implies voting_power(#[trigger] d[i]) >= voting_power(last) by {
            assert(d[i] == s[i]);
            assert(voting_power(s[i]) >= voting_power(s[s.len() - 1]));
        }
        lemma_insert_by_power_bound(d, x, voting_power(last));
        let q = r.push(last);
        assert forall|i: int, j: int| 0 <= i < j < q.len() implies voting_power(#[trigger] q[i]) >= voting_power(#[trigger] q[j]) by {
            assert(q[i] == r[i]);
            if j < r.len() {
                assert(q[j] == r[j]);
            }
        }
        assert(s =~= d.push(last));
        assert(q.to_multiset() =~= s.to_multiset().insert(x));
    }
}

/// Ordering by power sorts a sequence by voting power, highest first, and keeps exactly its
/// elements: the result is a permutation of the input.
pub proof fn law_by_power_sorts(s: Seq<ValidatorInfo>)
    ensures
        sorted_by_power(by_power(s)),
        by_power(s).to_multiset() == s.to_multiset(),
    decreases s.len(),
{
    broadcast use vstd::seq_lib::group_to_multiset_ensures;
    if s.len() > 0 {
        let d = s.drop_last();
        law_by_power_sorts(d);
        lemma_insert_by_power_sorted(by_power(d), s.last());
        assert(s =~= d.push(s.last()));
    } else {
        assert(s.to_multiset() =~= by_power(s).to_multiset());
    }
}

impl ValidatorSet {
    /// Ends the current epoch once its rotation time has come: records the epoch (keeping the
    /// last ten), starts the next one and adjusts the validator set.
    pub fn rotate_epoch(&mut self, now: i64) -> (res: Result<(), BridgeError>)
        requires
            old(self).well_formed(),
            now >= old(self).next_rotation ==> {
                &&& validations_sum(old(self).validators@) <= u64::MAX
                &&& successful_sum(old(self).validators@) <= u64::MAX
                &&& rewards_sum(old(self).validators@) <= u64::MAX
                &&& old(self).current_epoch < u64::MAX
                &&& i64::MIN <= now + (old(self).rotation_frequency as i64) <= i64::MAX
                &&& old(self).active_validator_count + old(self).validators@.len() <= u16::MAX
            },
        ensures
            final(self).well_formed(),
            now < old(self).next_rotation ==> res == Err::<(), BridgeError>(BridgeError::RotationNotDue) && *final(self) == *old(self),
            now >= old(self).next_rotation ==> {
                let min = old(self).slashing_config.min_reputation_threshold;
                let (vals, active) = activation_pass(old(self).validators@, old(self).active_validator_count,
                    old(self).geo_distribution, old(self).version_requirements, old(self).validators@.len() as int);
                &&& res is Ok
                &&& final(self).epoch_history@ == history_after(old(self).epoch_history@, closing_epoch(*old(self), now))
                &&& final(self).current_epoch == old(self).current_epoch + 1
                &&& final(self).next_rotation == now + (old(self).rotation_frequency as i64)
                &&& final(self).last_updated == now
                &&& final(self).validators@ == vals.map_values(|v: ValidatorInfo| after_deactivation(v, min))
                &&& final(self).active_validator_count == active - count_underperforming(vals, min)
                &&& final(self).validator_count == old(self).validator_count
                &&& final(self).total_stake == old(self).total_stake
            },
            same_settings(*final(self), *old(self)),
    {
        if now < self.next_rotation {
            return Err(BridgeError::RotationNotDue);
        }
        let epoch_info = EpochInfo {
            epoch: self.current_epoch,
            start_time: self.last_updated,
            end_time: now,
            active_validators: self.active_validator_count,
            total_validations: self.calculate_total_validations(),
            successful_validations: self.calculate_successful_validations(),
            total_rewards_distributed: self.calculate_epoch_rewards(),
            average_reputation: self.calculate_average_reputation(),
        };
        let ghost history = self.epoch_history@;
        self.epoch_history.push(epoch_info);
        if self.epoch_history.len() > MAX_EPOCH_HISTORY {
            self.epoch_history.remove(0);
            assert(self.epoch_history@ =~= history.push(epoch_info).drop_first());
        }
        self.current_epoch = self.current_epoch + 1;
        self.next_rotation = now + self.rotation_frequency as i64;
        self.last_updated = now;
        match self.adjust_validator_set(now) {
            Ok(()) => {},
            Err(e) => { return Err(e); },
        }
        Ok(())
    }

    /// The active validators, highest voting power first; validators of equal power keep
    /// their order in the set.
    pub fn get_active_validators_by_power(&self) -> (res: Vec<ValidatorInfo>)
        requires
            self.validators@.len() <= MAX_VALIDATORS,
        ensures
            res@ == by_power(active_validators(self.validators@)),
            res@.to_multiset() == active_validators(self.validators@).to_multiset(),
            sorted_by_power(res@),
    {
        let mut result: Vec<ValidatorInfo> = Vec::new();
        let mut i: usize = 0;
        while i < self.validators.len()
            invariant
                i <= self.validators@.len() <= MAX_VALIDATORS,
                result@ == by_power(active_validators(self.validators@.take(i as int))),
                result@.len() <= i,
            decreases self.validators.len() - i,
        {
            let v = self.validators[i];
            let ghost prefix = self.validators@.take(i as int);
            assert(self.validators@.take(i + 1).drop_last() =~= prefix);
            assert(self.validators@.take(i + 1).last() == v);
            proof {
                reveal(Seq::filter);
                let f0 = active_validators(prefix);
                if is_active(v) {
                    assert(active_validators(self.validators@.take(i + 1)) == f0.push(v));
                    assert(f0.push(v).drop_last() =~= f0);
                    assert(by_power(f0.push(v)) == insert_by_power(by_power(f0), v));
                } else {
                    assert(active_validators(self.validators@.take(i + 1)) == f0);
                }
            }
            if v.status == ValidatorStatus::Active {
                let power = v.calculate_voting_power();
                let mut p = result.len();
                while p > 0 && result[p - 1].calculate_voting_power() < power
                    invariant
                        p <= result@.len(),
                        power == voting_power(v),
                        forall|j: int| p <= j < result@.len() ==> voting_power(#[trigger] result@[j]) < voting_power(v),
                    decreases p,
                {
                    p = p - 1;
                }
                proof {
                    lemma_insert_by_power_at(result@, v, p as int);
                    lemma_insert_by_power_len(result@, v);
                }
                result.insert(p, v);
            }
            i = i + 1;
        }
        assert(self.validators@.take(self.validators@.len() as int) =~= self.validators@);
        proof {
            law_by_power_sorts(active_validators(self.validators@));
        }
        result
    }
}

impl ValidatorSet {
    /// The validator with key `validator_pubkey`, for changing in place.
    pub fn get_validator_mut(&mut self, validator_pubkey: &[u8; 32]) -> (res: Option<&mut ValidatorInfo>)
        requires
            old(self).well_formed(),
        ensures
            !has_key(old(self).validators@, *validator_pubkey) ==> res is None && *final(self) == *old(self),
            has_key(old(self).validators@, *validator_pubkey) ==> {
                let i = key_index(old(self).validators@, *validator_pubkey);
                &&& res is Some
                &&& *res->Some_0 == old(self).validators@[i]
                &&& final(self).validators@ == old(self).validators@.update(i, *final(res->Some_0))
            },
            final(self).validator_count == old(self).validator_count,
            final(self).active_validator_count == old(self).active_validator_count,
            final(self).total_stake == old(self).total_stake,
            final(self).last_updated == old(self).last_updated,
            same_settings(*final(self), *old(self)),
            same_epochs(*final(self), *old(self)),
    {
        match find_key(&self.validators, validator_pubkey) {
            Some(i) => {
                proof {
                    lemma_key_index_unique(self.validators@, *validator_pubkey, i as int);
                }
                Some(&mut self.validators[i])
            },
            None => None,
        }
    }
}

/// A validator that joined can be looked up by its key, with the stake it joined with, whether
/// or not it became active on joining.
pub proof fn law_added_validator_is_found(
    vals: Seq<ValidatorInfo>,
    pubkey: [u8; 32],
    stake: u64,
    network_id: u8,
    commission_rate: u16,
    region_code: u8,
    now: i64,
    active: u16,
    geo: GeographicDistribution,
    version: VersionRequirements,
)
    requires
        !has_key(vals, pubkey),
    ensures
        ({
            let joined = joining_validator(pubkey, stake, network_id, commission_rate, region_code, now, version.minimum_version);
            let after = activate_at(vals.push(joined), active, geo, version, vals.len() as int).0;
            &&& has_key(after, pubkey)
            &&& after[key_index(after, pubkey)].pubkey == pubkey
            &&& after[key_index(after, pubkey)].stake == stake
        }),
{
    let joined = joining_validator(pubkey, stake, network_id, commission_rate, region_code, now, version.minimum_version);
    let after = activate_at(vals.push(joined), active, geo, version, vals.len() as int).0;
    let n = vals.len() as int;
    assert(after.len() == n + 1);
    assert(after[n].pubkey == pubkey && after[n].stake == stake);
    assert forall|i: int| 0 <= i < n implies after[i] == vals[i] by {}
    assert(has_key(after, pubkey));
    let k = key_index(after, pubkey);
    if k != n {
        assert(after[k] == vals[k]);
        assert(has_key(vals, pubkey));
    }
}

/// A validator that was removed can no longer be looked up by its key.
pub proof fn law_removed_validator_is_gone(vals: Seq<ValidatorInfo>, pubkey: [u8; 32])
    requires
        keys_distinct(vals),
        has_key(vals, pubkey),
    ensures
        !has_key(vals.update(key_index(vals, pubkey), vals.last()).drop_last(), pubkey),
{
    let i = key_index(vals, pubkey);
    let after = vals.update(i, vals.last()).drop_last();
    assert forall|j: int| 0 <= j < after.len() implies after[j].pubkey != pubkey by {
        if j == i {
            assert(after[j] == vals[vals.len() - 1]);
            assert(vals.len() - 1 != i);
        } else {
            assert(after[j] == vals[j]);
        }
    }
}

/// Reputation weighs on voting power: an active validator's power is its stake in millions of
/// lamports plus a bonus of a five-thousandth of that per reputation point, up to 1 000 points
/// (a 20% bonus). So an active validator with no reputation has exactly its base power, one
/// with 1 000 points or more has base plus a fifth, at equal stake more reputation never means
/// less power and means strictly more once the extra reputation is worth a whole unit
/// (`base * (r2 - r1) >= 5000`), and an inactive validator has none.
pub proof fn law_reputation_weighs_on_power(v1: ValidatorInfo, v2: ValidatorInfo)
    requires
        v1.status == ValidatorStatus::Active,
        v2.status == ValidatorStatus::Active,
        v1.stake == v2.stake,
        v1.reputation <= v2.reputation,
    ensures
        ({
            let base = v1.stake / 1_000_000;
            let r1: int = if v1.reputation < 1000 { v1.reputation as int } else { 1000 };
            let r2: int = if v2.reputation < 1000 { v2.reputation as int } else { 1000 };
            &&& base <= voting_power(v1) <= voting_power(v2) <= base + base / 5
            &&& v1.reputation == 0 ==> voting_power(v1) == base
            &&& v2.reputation >= 1000 ==> voting_power(v2) == base + base / 5
            &&& base * (r2 - r1) >= 5000 ==> voting_power(v1) < voting_power(v2)
        }),
        forall|v: ValidatorInfo| v.status != ValidatorStatus::Active ==> voting_power(v) == 0,
{
    let base = v1.stake / 1_000_000;
    let r1: int = if v1.reputation < 1000 { v1.reputation as int } else { 1000 };
    let r2: int = if v2.reputation < 1000 { v2.reputation as int } else { 1000 };
    assert(base * 1000 / 5000 == base / 5) by (nonlinear_arith)
        requires
            base >= 0,
    ;
    assert(0 <= base * r1 / 5000 <= base * r2 / 5000 <= base * 1000 / 5000) by (nonlinear_arith)
        requires
            base >= 0,
            0 <= r1 <= r2 <= 1000,
    ;
    assert(base * (r2 - r1) >= 5000 ==> base * r1 / 5000 < base * r2 / 5000) by (nonlinear_arith)
        requires
            base >= 0,
            0 <= r1 <= r2,
    ;
    assert(voting_power(v1) == base + base * r1 / 5000);
    assert(voting_power(v2) == base + base * r2 / 5000);
    assert(r1 <= r2);
    assert(base <= voting_power(v1) <= voting_power(v2) <= base + base / 5);
    assert(base * 0 == 0);
}

} // verus!
