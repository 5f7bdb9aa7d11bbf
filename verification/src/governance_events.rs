//! Governance records: proposals and votes as announced, weighted voting power, participation
//! rewards, DAO metrics, and the checks and impact of proposed parameter changes.
use vstd::prelude::*;

use crate::errors::FinovaError;
use crate::text::str_eq;

verus! {

/// Voting power needed to create a proposal.
pub const CREATION_THRESHOLD: u64 = 1_000_000;

/// What a proposal asks for.
#[derive(Clone, Debug)]
pub enum ProposalType {
    ParameterChange,
    FeatureAddition,
    TreasuryAllocation,
    SystemUpgrade,
    EmergencyAction,
    CommunityInitiative,
    PartnershipApproval,
    TokenomicsChange,
    GovernanceChange,
    Other(String),
}

/// A voter's choice.
#[derive(Clone, Copy, Debug, PartialEq, Eq, Structural)]
pub enum VoteChoice {
    For,
    Against,
    Abstain,
}

/// A parameter that a proposal would change.
#[derive(Clone, Debug)]
pub struct ProposalParameter {
    pub name: String,
    pub current_value: String,
    pub proposed_value: String,
    pub parameter_type: String,
}

/// Areas of the system that parameters belong to.
#[derive(Clone, Debug)]
pub enum ParameterCategory {
    Mining,
    Staking,
    XP,
    Referral,
    NFT,
    Treasury,
    Governance,
    Security,
    Other(String),
}

/// How much a change matters, from Low to Critical.
#[derive(Clone, Copy, Debug, PartialEq, Eq, Structural)]
pub enum ImpactLevel {
    Low,
    Medium,
    High,
    Critical,
}

/// Parts of the governance configuration.
#[derive(Clone, Debug)]
pub enum GovernanceConfigType {
    VotingParameters,
    QuorumRules,
    ProposalThresholds,
    ExecutionDelays,
    EmergencyProcedures,
    RewardStructure,
    Other(String),
}

/// Movements of the treasury.
#[derive(Clone, Copy, Debug, PartialEq, Eq, Structural)]
pub enum TreasuryActionType {
    Deposit,
    Withdrawal,
    Investment,
    Grant,
    Burn,
    Mint,
    Transfer,
    Reserve,
}

/// Emergency measures.
#[derive(Clone, Debug)]
pub enum EmergencyActionType {
    PauseSystem,
    UnpauseSystem,
    PauseMining,
    UnpauseMining,
    PauseStaking,
    UnpauseStaking,
    PauseTrading,
    UnpauseTrading,
    AdjustParameters,
    SecurityLockdown,
    Other(String),
}

/// Ways of taking part in governance.
#[derive(Clone, Debug)]
pub enum GovernanceParticipationType {
    ProposalCreation,
    Voting,
    Delegation,
    ProposalExecution,
    ParameterMonitoring,
    CommunityModeration,
    SecurityReporting,
    Other(String),
}

/// A proposal as announced.
#[derive(Clone, Debug)]
pub struct ProposalCreated {
    pub proposal_id: u64,
    pub creator: [u8; 32],
    pub title: String,
    pub description: String,
    pub proposal_type: ProposalType,
    pub quorum_required: u64,
    pub creation_threshold: u64,
    pub voting_start: i64,
    pub voting_end: i64,
    pub execution_delay: i64,
    pub parameters: Vec<ProposalParameter>,
    pub timestamp: i64,
}

/// The quorum of a proposal by its identifier's last digit: 100M for 0 to 3, 50M for 4 to 6,
/// 25M for 7 and 8, 10M for 9.
pub open spec fn spec_quorum(proposal_id: u64) -> u64 {
    let d = proposal_id % 10;
    if d <= 3 {
        100_000_000
    } else if d <= 6 {
        50_000_000
    } else if d <= 8 {
        25_000_000
    } else {
        10_000_000
    }
}

impl ProposalCreated {
    /// The quorum of a proposal.
    pub fn calculate_quorum(proposal_id: u64) -> (q: u64)
        ensures
            q == spec_quorum(proposal_id),
    {
        let d = proposal_id % 10;
        if d <= 3 {
            100_000_000
        } else if d <= 6 {
            50_000_000
        } else if d <= 8 {
            25_000_000
        } else {
            10_000_000
        }
    }

    /// Announces a proposal created at `now`, open to votes for `voting_duration` seconds.
    pub fn new(
        proposal_id: u64,
        creator: [u8; 32],
        title: String,
        description: String,
        proposal_type: ProposalType,
        voting_duration: i64,
        execution_delay: i64,
        parameters: Vec<ProposalParameter>,
        now: i64,
    ) -> (e: Self)
        requires
            i64::MIN <= now + voting_duration <= i64::MAX,
        ensures
            e.proposal_id == proposal_id,
            e.creator == creator,
            e.title@ == title@,
            e.description@ == description@,
            e.quorum_required == spec_quorum(proposal_id),
            e.creation_threshold == CREATION_THRESHOLD,
            e.voting_start == now,
            e.voting_end == now + voting_duration,
            e.execution_delay == execution_delay,
            e.proposal_type == proposal_type,
            e.parameters@ == parameters@,
            e.timestamp == now,
    {
        ProposalCreated {
            proposal_id,
            creator,
            title,
            description,
            proposal_type,
            quorum_required: Self::calculate_quorum(proposal_id),
            creation_threshold: CREATION_THRESHOLD,
            voting_start: now,
            voting_end: now + voting_duration,
            execution_delay,
            parameters,
            timestamp: now,
        }
    }
}

/// A vote as announced, with the multipliers that weighted it.
#[derive(Clone, Debug)]
pub struct VoteCast {
    pub proposal_id: u64,
    pub voter: [u8; 32],
    pub vote: VoteChoice,
    pub voting_power: u64,
    pub reason: Option<String>,
    pub delegate: Option<[u8; 32]>,
    /// In thousandths, as are the other multipliers.
    pub xp_multiplier: u64,
    pub rp_multiplier: u64,
    pub staking_multiplier: u64,
    pub activity_weight: u64,
    pub weighted_voting_power: u64,
    pub timestamp: i64,
}

/// The XP multiplier of a vote, in thousandths: one hundredth per level.
pub open spec fn spec_vote_xp_multiplier(xp_level: u32) -> int {
    1000 + xp_level * 10
}

/// The RP multiplier of a vote, in thousandths: a fifth per tier.
pub open spec fn spec_vote_rp_multiplier(rp_tier: u32) -> int {
    1000 + rp_tier * 200
}

/// The activity weight of a vote, in thousandths, at most 2.0x.
pub open spec fn spec_activity_weight(activity_score: u64) -> int {
    if 1000 + activity_score < 2000 {
        1000 + activity_score
    } else {
        2000
    }
}

/// The weighted power of a vote: the base power times the four multipliers, in units.
pub open spec fn spec_weighted_vote(
    base: u64,
    xp_level: u32,
    rp_tier: u32,
    staked_amount: u64,
    activity_score: u64,
) -> int {
    base * spec_vote_xp_multiplier(xp_level) * spec_vote_rp_multiplier(rp_tier) * (1000 + staked_amount / 1000)
        * spec_activity_weight(activity_score) / 1_000_000_000_000
}

/// Whether the weighting of a vote stays within `u64`.
pub open spec fn weighted_vote_fits(
    base: u64,
    xp_level: u32,
    rp_tier: u32,
    staked_amount: u64,
    activity_score: u64,
) -> bool {
    &&& 1000 + activity_score <= u64::MAX
    &&& base * spec_vote_xp_multiplier(xp_level) <= u64::MAX
    &&& base * spec_vote_xp_multiplier(xp_level) * spec_vote_rp_multiplier(rp_tier) <= u64::MAX
    &&& base * spec_vote_xp_multiplier(xp_level) * spec_vote_rp_multiplier(rp_tier) * (1000 + staked_amount / 1000)
        <= u64::MAX
    &&& base * spec_vote_xp_multiplier(xp_level) * spec_vote_rp_multiplier(rp_tier) * (1000 + staked_amount / 1000)
        * spec_activity_weight(activity_score) <= u64::MAX
}

impl VoteCast {
    /// Announces a vote cast at `now` with its weighting.
    pub fn new(
        proposal_id: u64,
        voter: [u8; 32],
        vote: VoteChoice,
        base_voting_power: u64,
        xp_level: u32,
        rp_tier: u32,
        staked_amount: u64,
        activity_score: u64,
        now: i64,
    ) -> (e: Self)
        requires
            weighted_vote_fits(base_voting_power, xp_level, rp_tier, staked_amount, activity_score),
        ensures
            e.proposal_id == proposal_id,
            e.voter == voter,
            e.vote == vote,
            e.voting_power == base_voting_power,
            e.reason is None,
            e.delegate is None,
            e.xp_multiplier == spec_vote_xp_multiplier(xp_level),
            e.rp_multiplier == spec_vote_rp_multiplier(rp_tier),
            e.staking_multiplier == 1000 + staked_amount / 1000,
            e.activity_weight == spec_activity_weight(activity_score),
            e.weighted_voting_power == spec_weighted_vote(base_voting_power, xp_level, rp_tier, staked_amount, activity_score),
            e.timestamp == now,
    {
        let xp_multiplier: u64 = 1000 + xp_level as u64 * 10;
        let rp_multiplier: u64 = 1000 + rp_tier as u64 * 200;
        let staking_multiplier: u64 = 1000 + staked_amount / 1000;
        let a = 1000 + activity_score;
        let activity_weight: u64 = if a < 2000 { a } else { 2000 };
        let weighted_voting_power = base_voting_power * xp_multiplier * rp_multiplier * staking_multiplier
            * activity_weight / 1_000_000_000_000;
        VoteCast {
            proposal_id,
            voter,
            vote,
            voting_power: base_voting_power,
            reason: None,
            delegate: None,
            xp_multiplier,
            rp_multiplier,
            staking_multiplier,
            activity_weight,
            weighted_voting_power,
            timestamp: now,
        }
    }

    /// The same vote, cast by `delegate`.
    pub fn with_delegation(self, delegate: [u8; 32]) -> (e: Self)
        ensures
            e == (VoteCast { delegate: Some(delegate), ..self }),
    {
        let mut e = self;
        e.delegate = Some(delegate);
        e
    }

    /// The same vote, with a reason.
    pub fn with_reason(self, reason: String) -> (e: Self)
        ensures
            e == (VoteCast { reason: Some(reason), ..self }),
    {
        let mut e = self;
        e.reason = Some(reason);
        e
    }
}

/// A reward for taking part in governance.
#[derive(Clone, Debug)]
pub struct GovernanceReward {
    pub user: [u8; 32],
    pub participation_type: GovernanceParticipationType,
    pub proposal_id: Option<u64>,
    pub reward_amount: u64,
    pub bonus_multiplier: u64,
    pub quality_score: u64,
    pub consistency_bonus: u64,
    pub total_reward: u64,
    pub timestamp: i64,
}

/// The bonus multiplier of a kind of participation, in thousandths: 5x for proposals, 1x for
/// votes, 2x for delegation, 3x for execution, 10x for security reports, 1.5x otherwise.
pub open spec fn spec_participation_bonus(t: GovernanceParticipationType) -> u64 {
    match t {
        GovernanceParticipationType::ProposalCreation => 5000,
        GovernanceParticipationType::Voting => 1000,
        GovernanceParticipationType::Delegation => 2000,
        GovernanceParticipationType::ProposalExecution => 3000,
        GovernanceParticipationType::SecurityReporting => 10000,
        _ => 1500,
    }
}

/// The total of a governance reward: base, bonus, quality (in hundredths) and consistency
/// multiplied together and scaled down by a million.
pub open spec fn spec_governance_reward(base: u64, bonus: u64, quality: u64, consistency: u64) -> int {
    base * bonus * (quality * 100) * consistency / 1_000_000
}

/// Whether a governance reward can be computed in `u64`.
pub open spec fn governance_reward_fits(base: u64, bonus: u64, quality: u64, consistency: u64) -> bool {
    &&& quality * 100 <= u64::MAX
    &&& base * bonus <= u64::MAX
    &&& base * bonus * (quality * 100) <= u64::MAX
    &&& base * bonus * (quality * 100) * consistency <= u64::MAX
}

impl GovernanceReward {
    /// The reward at `now` for a participation of `participation_type`.
    pub fn calculate_reward(
        user: [u8; 32],
        participation_type: GovernanceParticipationType,
        base_reward: u64,
        quality_score: u64,
        consistency_multiplier: u64,
        now: i64,
    ) -> (r: Self)
        requires
            governance_reward_fits(
                base_reward,
                spec_participation_bonus(participation_type),
                quality_score,
                consistency_multiplier,
            ),
        ensures
            r.user == user,
            r.participation_type == participation_type,
            r.proposal_id is None,
            r.reward_amount == base_reward,
            r.bonus_multiplier == spec_participation_bonus(participation_type),
            r.quality_score == quality_score,
            r.consistency_bonus == consistency_multiplier,
            r.total_reward == spec_governance_reward(
                base_reward,
                spec_participation_bonus(participation_type),
                quality_score,
                consistency_multiplier,
            ),
            r.timestamp == now,
    {
        let bonus_multiplier: u64 = match &participation_type {
            GovernanceParticipationType::ProposalCreation => 5000,
            GovernanceParticipationType::Voting => 1000,
            GovernanceParticipationType::Delegation => 2000,
            GovernanceParticipationType::ProposalExecution => 3000,
            GovernanceParticipationType::SecurityReporting => 10000,
            _ => 1500,
        };
        let quality_bonus = quality_score * 100;
        let total_reward = base_reward * bonus_multiplier * quality_bonus * consistency_multiplier / 1_000_000;
        GovernanceReward {
            user,
            participation_type,
            proposal_id: None,
            reward_amount: base_reward,
            bonus_multiplier,
            quality_score,
            consistency_bonus: consistency_multiplier,
            total_reward,
            timestamp: now,
        }
    }
}

/// A computed voting power.
#[derive(Clone, Copy, Debug)]
pub struct VotingPowerCalculated {
    pub user: [u8; 32],
    pub base_power: u64,
    pub xp_multiplier: u64,
    pub rp_multiplier: u64,
    pub activity_multiplier: u64,
    pub delegated_power: u64,
    pub delegated_away: u64,
    pub final_voting_power: u64,
    pub timestamp: i64,
}

/// The voting power of a stake before delegation: the stake times the XP, RP and activity
/// multipliers (thousandths), scaled down by a billion.
pub open spec fn spec_calculated_power(staked: u64, xp_level: u32, rp_tier: u32, activity_score: u64) -> int {
    staked * spec_vote_xp_multiplier(xp_level) * spec_vote_rp_multiplier(rp_tier) * spec_activity_weight(activity_score)
        / 1_000_000_000
}

/// Whether a voting power can be computed without overflow or underflow.
pub open spec fn voting_power_fits(
    staked: u64,
    xp_level: u32,
    rp_tier: u32,
    activity_score: u64,
    received: u64,
    given: u64,
) -> bool {
    &&& 1000 + activity_score <= u64::MAX
    &&& staked * spec_vote_xp_multiplier(xp_level) <= u64::MAX
    &&& staked * spec_vote_xp_multiplier(xp_level) * spec_vote_rp_multiplier(rp_tier) <= u64::MAX
    &&& staked * spec_vote_xp_multiplier(xp_level) * spec_vote_rp_multiplier(rp_tier) * spec_activity_weight(
        activity_score,
    ) <= u64::MAX
    &&& spec_calculated_power(staked, xp_level, rp_tier, activity_score) + received <= u64::MAX
    &&& spec_calculated_power(staked, xp_level, rp_tier, activity_score) + received >= given
}

impl VotingPowerCalculated {
    /// The voting power of `user` at `now`: its weighted stake plus the power delegated to it,
    /// less the power it delegated away.
    pub fn calculate(
        user: [u8; 32],
        staked_tokens: u64,
        xp_level: u32,
        rp_tier: u32,
        activity_score: u64,
        delegated_received: u64,
        delegated_given: u64,
        now: i64,
    ) -> (v: Self)
        requires
            voting_power_fits(staked_tokens, xp_level, rp_tier, activity_score, delegated_received, delegated_given),
        ensures
            v.user == user,
            v.base_power == staked_tokens,
            v.xp_multiplier == spec_vote_xp_multiplier(xp_level),
            v.rp_multiplier == spec_vote_rp_multiplier(rp_tier),
            v.activity_multiplier == spec_activity_weight(activity_score),
            v.delegated_power == delegated_received,
            v.delegated_away == delegated_given,
            v.final_voting_power == spec_calculated_power(staked_tokens, xp_level, rp_tier, activity_score)
                + delegated_received - delegated_given,
            v.timestamp == now,
    {
        let xp_multiplier: u64 = 1000 + xp_level as u64 * 10;
        let rp_multiplier: u64 = 1000 + rp_tier as u64 * 200;
        let a = 1000 + activity_score;
        let activity_multiplier: u64 = if a < 2000 { a } else { 2000 };
        let calculated_power = staked_tokens * xp_multiplier * rp_multiplier * activity_multiplier / 1_000_000_000;
        let final_voting_power = calculated_power + delegated_received - delegated_given;
        VotingPowerCalculated {
            user,
            base_power: staked_tokens,
            xp_multiplier,
            rp_multiplier,
            activity_multiplier,
            delegated_power: delegated_received,
            delegated_away: delegated_given,
            final_voting_power,
            timestamp: now,
        }
    }
}

/// Running figures of the DAO.
#[derive(Clone, Copy, Debug)]
pub struct GovernanceMetrics {
    pub total_proposals: u64,
    pub active_proposals: u64,
    pub executed_proposals: u64,
    pub canceled_proposals: u64,
    pub total_votes_cast: u64,
    pub unique_voters: u32,
    /// Unique voters per proposal, in basis points.
    pub average_participation_rate: u64,
    pub total_voting_power: u64,
    pub delegated_power: u64,
    pub governance_rewards_distributed: u64,
    pub last_updated: i64,
}

impl GovernanceMetrics {
    /// Empty figures at `now`.
    pub fn new(now: i64) -> (m: Self)
        ensures
            m == (GovernanceMetrics {
                total_proposals: 0,
                active_proposals: 0,
                executed_proposals: 0,
                canceled_proposals: 0,
                total_votes_cast: 0,
                unique_voters: 0,
                average_participation_rate: 0,
                total_voting_power: 0,
                delegated_power: 0,
                governance_rewards_distributed: 0,
                last_updated: now,
            }),
    {
        GovernanceMetrics {
            total_proposals: 0,
            active_proposals: 0,
            executed_proposals: 0,
            canceled_proposals: 0,
            total_votes_cast: 0,
            unique_voters: 0,
            average_participation_rate: 0,
            total_voting_power: 0,
            delegated_power: 0,
            governance_rewards_distributed: 0,
            last_updated: now,
        }
    }

    /// Counts a proposal that was "created" (one more, and one more active), "executed" or
    /// "canceled" (one more of those, one fewer active, not below zero); any other status
    /// changes no count. The figures are updated at `now`.
    pub fn update_proposal_metrics(&mut self, proposal_type: &str, status: &str, now: i64)
        requires
            old(self).total_proposals < u64::MAX,
            old(self).active_proposals < u64::MAX,
            old(self).executed_proposals < u64::MAX,
            old(self).canceled_proposals < u64::MAX,
        ensures
            *final(self) == (if status@ == "created"@ {
                GovernanceMetrics {
                    total_proposals: (old(self).total_proposals + 1) as u64,
                    active_proposals: (old(self).active_proposals + 1) as u64,
                    last_updated: now,
                    ..*old(self)
                }
            } else if status@ == "executed"@ {
                GovernanceMetrics {
                    executed_proposals: (old(self).executed_proposals + 1) as u64,
                    active_proposals: if old(self).active_proposals > 0 {
                        (old(self).active_proposals - 1) as u64
                    } else {
                        0
                    },
                    last_updated: now,
                    ..*old(self)
                }
            } else if status@ == "canceled"@ {
                GovernanceMetrics {
                    canceled_proposals: (old(self).canceled_proposals + 1) as u64,
                    active_proposals: if old(self).active_proposals > 0 {
                        (old(self).active_proposals - 1) as u64
                    } else {
                        0
                    },
                    last_updated: now,
                    ..*old(self)
                }
            } else {
                GovernanceMetrics { last_updated: now, ..*old(self) }
            }),
    {
        if str_eq(status, "created") {
            self.total_proposals = self.total_proposals + 1;
            self.active_proposals = self.active_proposals + 1;
        } else if str_eq(status, "executed") {
            self.executed_proposals = self.executed_proposals + 1;
            self.active_proposals = self.active_proposals.saturating_sub(1);
        } else if str_eq(status, "canceled") {
            self.canceled_proposals = self.canceled_proposals + 1;
            self.active_proposals = self.active_proposals.saturating_sub(1);
        }
        self.last_updated = now;
    }

    /// Counts a vote of `voting_power` (and a new voter if so), recomputes the participation
    /// rate when there are proposals, and updates the figures at `now`.
    pub fn update_voting_metrics(&mut self, voting_power: u64, is_new_voter: bool, now: i64)
        requires
            old(self).total_votes_cast < u64::MAX,
            old(self).total_voting_power + voting_power <= u64::MAX,
            old(self).unique_voters < u32::MAX,
        ensures
            ({
                let voters = if is_new_voter { old(self).unique_voters + 1 } else { old(self).unique_voters as int };
                *final(self) == GovernanceMetrics {
                    total_votes_cast: (old(self).total_votes_cast + 1) as u64,
                    total_voting_power: (old(self).total_voting_power + voting_power) as u64,
                    unique_voters: voters as u32,
                    average_participation_rate: if old(self).total_proposals > 0 {
                        (voters * 10000 / old(self).total_proposals as int) as u64
                    } else {
                        old(self).average_participation_rate
                    },
                    last_updated: now,
                    ..*old(self)
                }
            }),
    {
        self.total_votes_cast = self.total_votes_cast + 1;
        self.total_voting_power = self.total_voting_power + voting_power;
        if is_new_voter {
            self.unique_voters = self.unique_voters + 1;
        }
        if self.total_proposals > 0 {
            self.average_participation_rate = (self.unique_voters as u64 * 10000) / self.total_proposals;
        }
        self.last_updated = now;
    }
}

/// The parameters that a proposal may change.
pub open spec fn is_known_parameter(name: Seq<char>) -> bool {
    ||| name == "mining_rate"@
    ||| name == "staking_apy"@
    ||| name == "xp_multiplier"@
    ||| name == "referral_bonus"@
    ||| name == "nft_mint_fee"@
    ||| name == "governance_threshold"@
    ||| name == "quorum_requirement"@
}

/// The outcome of checking proposed parameters: the first unknown name is `InvalidParameter`,
/// the first empty proposed value `InvalidParameterValue`, checked parameter by parameter.
pub open spec fn parameters_check(params: Seq<ProposalParameter>) -> Result<(), FinovaError>
    decreases params.len(),
{
    if params.len() == 0 {
        Ok(())
    } else if !is_known_parameter(params[0].name@) {
        Err(FinovaError::InvalidParameter)
    } else if params[0].proposed_value@.len() == 0 {
        Err(FinovaError::InvalidParameterValue)
    } else {
        parameters_check(params.drop_first())
    }
}

/// Whether a name is one of the parameters that a proposal may change.
fn known_parameter(name: &str) -> (r: bool)
    ensures
        r == is_known_parameter(name@),
{
    str_eq(name, "mining_rate") || str_eq(name, "staking_apy") || str_eq(name, "xp_multiplier") || str_eq(
        name,
        "referral_bonus",
    ) || str_eq(name, "nft_mint_fee") || str_eq(name, "governance_threshold") || str_eq(name, "quorum_requirement")
}

/// Checks the parameters a proposal would change, in order.
pub fn validate_proposal_parameters(parameters: &[ProposalParameter]) -> (res: Result<(), FinovaError>)
    ensures
        res == parameters_check(parameters@),
{
    let n = parameters.len();
    let mut i: usize = 0;
    proof {
        assert(parameters@.skip(0) =~= parameters@);
    }
    while i < n
        invariant
            n == parameters@.len(),
            i <= n,
            parameters_check(parameters@) == parameters_check(parameters@.skip(i as int)),
        decreases n - i,
    {
        let param = &parameters[i];
        proof {
            assert(parameters@.skip(i as int)[0] == parameters@[i as int]);
            assert(parameters@.skip(i as int).drop_first() =~= parameters@.skip(i + 1));
        }
        if !known_parameter(param.name.as_str()) {
            return Err(FinovaError::InvalidParameter);
        }
        if param.proposed_value.as_str().is_empty() {
            return Err(FinovaError::InvalidParameterValue);
        }
        i = i + 1;
    }
    proof {
        assert(parameters@.skip(n as int).len() == 0);
    }
    Ok(())
}

/// The rank of an impact level, Low first.
pub open spec fn impact_rank(l: ImpactLevel) -> int {
    match l {
        ImpactLevel::Low => 0,
        ImpactLevel::Medium => 1,
        ImpactLevel::High => 2,
        ImpactLevel::Critical => 3,
    }
}

/// The impact of changing a parameter: High for mining rate and staking APY, Critical for the
/// governance threshold and quorum, Low for the NFT mint fee, Medium otherwise.
pub open spec fn spec_parameter_impact(name: Seq<char>) -> ImpactLevel {
    if name == "mining_rate"@ || name == "staking_apy"@ {
        ImpactLevel::High
    } else if name == "governance_threshold"@ || name == "quorum_requirement"@ {
        ImpactLevel::Critical
    } else if name == "nft_mint_fee"@ {
        ImpactLevel::Low
    } else {
        ImpactLevel::Medium
    }
}

/// The higher of two impact levels.
pub open spec fn max_impact(a: ImpactLevel, b: ImpactLevel) -> ImpactLevel {
    if impact_rank(a) >= impact_rank(b) {
        a
    } else {
        b
    }
}

/// The highest impact among the first `n` parameters (Low for none).
pub open spec fn impact_of(params: Seq<ProposalParameter>) -> ImpactLevel
    decreases params.len(),
{
    if params.len() == 0 {
        ImpactLevel::Low
    } else {
        max_impact(impact_of(params.drop_last()), spec_parameter_impact(params.last().name@))
    }
}

/// The impact of changing one parameter.
fn parameter_impact(name: &str) -> (l: ImpactLevel)
    ensures
        l == spec_parameter_impact(name@),
{
    if str_eq(name, "mining_rate") || str_eq(name, "staking_apy") {
        ImpactLevel::High
    } else if str_eq(name, "governance_threshold") || str_eq(name, "quorum_requirement") {
        ImpactLevel::Critical
    } else if str_eq(name, "nft_mint_fee") {
        ImpactLevel::Low
    } else {
        ImpactLevel::Medium
    }
}

/// The highest impact among the parameters a proposal would change.
pub fn calculate_proposal_impact(parameters: &[ProposalParameter]) -> (l: ImpactLevel)
    ensures
        l == impact_of(parameters@),
{
    let n = parameters.len();
    let mut level = ImpactLevel::Low;
    let mut i: usize = 0;
    while i < n
        invariant
            n == parameters@.len(),
            i <= n,
            level == impact_of(parameters@.take(i as int)),
        decreases n - i,
    {
        proof {
            assert(parameters@.take(i + 1).drop_last() =~= parameters@.take(i as int));
        }
        let impact = parameter_impact(parameters[i].name.as_str());
        level = match (level, impact) {
            (ImpactLevel::Critical, _) | (_, ImpactLevel::Critical) => ImpactLevel::Critical,
            (ImpactLevel::High, _) | (_, ImpactLevel::High) => ImpactLevel::High,
            (ImpactLevel::Medium, _) | (_, ImpactLevel::Medium) => ImpactLevel::Medium,
            _ => ImpactLevel::Low,
        };
        i = i + 1;
    }
    proof {
        assert(parameters@.take(n as int) =~= parameters@);
    }
    level
}

/// Adding parameters never lowers the impact of a proposal.
pub proof fn law_impact_monotone(params: Seq<ProposalParameter>, more: Seq<ProposalParameter>)
    ensures
        impact_rank(impact_of(params)) <= impact_rank(impact_of(params + more)),
    decreases more.len(),
{
    if more.len() > 0 {
        law_impact_monotone(params, more.drop_last());
        assert((params + more).drop_last() =~= params + more.drop_last());
    }
}

} // verus!
