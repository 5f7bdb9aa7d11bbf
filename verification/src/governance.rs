//! DAO governance: proposals, votes weighted by holdings and stake, finalization against
//! quorum and approval thresholds, execution, delegation and cancellation.
use vstd::prelude::*;

use crate::core_state::{StakingAccount, UserAccount};
use crate::errors::FinovaError;
use crate::merkle::bytes32_eq;
use crate::text::{byte_len, string_byte_len};

verus! {

/// Shortest voting period, in seconds (one day).
pub const MIN_VOTING_PERIOD: u64 = 86400;
/// Longest voting period, in seconds (thirty days).
pub const MAX_VOTING_PERIOD: u64 = 2_592_000;
/// Longest proposal title, in bytes.
pub const MAX_TITLE_LENGTH: usize = 64;
/// Longest proposal description, in bytes.
pub const MAX_DESCRIPTION_LENGTH: usize = 512;
/// Longest execution payload, in bytes.
pub const MAX_EXECUTION_DATA_LENGTH: usize = 256;
/// Longest reason given with a vote, in bytes.
pub const MAX_VOTE_REASON_LENGTH: usize = 256;

/// What a proposal asks for.
#[derive(Clone, Copy, Debug, PartialEq, Eq, Structural)]
pub enum ProposalType {
    ParameterChange,
    TreasurySpending,
    FeatureAddition,
    UpgradeContract,
    CommunityInitiative,
    EmergencyAction,
}

/// Where a proposal stands.
#[derive(Clone, Copy, Debug, PartialEq, Eq, Structural)]
pub enum ProposalStatus {
    Draft,
    Active,
    Passed,
    Failed,
    Executed,
    Cancelled,
    Expired,
}

/// A voter's choice.
#[derive(Clone, Copy, Debug, PartialEq, Eq, Structural)]
pub enum VoteType {
    For,
    Against,
    Abstain,
}

/// Parameters and counters of the DAO.
#[derive(Clone, Copy, Debug)]
pub struct GovernanceConfig {
    pub authority: [u8; 32],
    /// Length of a vote, in seconds.
    pub voting_period: u64,
    /// Voting power needed to propose.
    pub min_voting_power: u64,
    /// Votes needed for a result to count.
    pub quorum_threshold: u64,
    /// Share of decided votes needed to pass, in basis points.
    pub approval_threshold: u64,
    /// Seconds between the end of a vote and execution.
    pub execution_delay: u64,
    pub proposal_count: u64,
    pub active_proposals: u64,
    pub proposal_deposit: u64,
    pub treasury_balance: u64,
    pub bump: u8,
}

/// A proposal and its running tally.
#[derive(Clone, Debug)]
pub struct Proposal {
    pub id: u64,
    pub proposer: [u8; 32],
    pub title: String,
    pub description: String,
    pub proposal_type: ProposalType,
    pub status: ProposalStatus,
    pub votes_for: u64,
    pub votes_against: u64,
    pub votes_abstain: u64,
    pub total_voting_power: u64,
    pub created_at: i64,
    pub voting_starts_at: i64,
    pub voting_ends_at: i64,
    pub executed_at: Option<i64>,
    pub execution_data: Vec<u8>,
    pub deposit_amount: u64,
    pub deposit_returned: bool,
    pub bump: u8,
}

/// A voter's ballot on a proposal.
#[derive(Clone, Debug)]
pub struct Vote {
    pub proposal_id: u64,
    pub voter: [u8; 32],
    pub vote_type: VoteType,
    pub voting_power: u64,
    pub delegated_power: u64,
    pub timestamp: i64,
    pub reason: Option<String>,
    pub bump: u8,
}

/// The parameters that `initialize_governance` admits.
pub open spec fn config_params_valid(
    voting_period: u64,
    quorum_threshold: u64,
    approval_threshold: u64,
) -> bool {
    &&& 5000 <= approval_threshold <= 10000
    &&& 1000 <= quorum_threshold <= 10000
    &&& MIN_VOTING_PERIOD <= voting_period <= MAX_VOTING_PERIOD
}

/// Sets up the DAO. The approval threshold must lie in [5000, 10000] basis points and the
/// quorum in [1000, 10000] (`InvalidParameter`), and the voting period between the shortest
/// (`VotingPeriodTooShort`) and the longest (`VotingPeriodTooLong`); counters start at zero.
pub fn initialize_governance(
    authority: [u8; 32],
    voting_period: u64,
    min_voting_power: u64,
    quorum_threshold: u64,
    approval_threshold: u64,
    execution_delay: u64,
    proposal_deposit: u64,
    bump: u8,
) -> (res: Result<GovernanceConfig, FinovaError>)
    ensures
        !(5000 <= approval_threshold <= 10000 && 1000 <= quorum_threshold <= 10000) ==> res == Err::<
            GovernanceConfig,
            FinovaError,
        >(FinovaError::InvalidParameter),
        (5000 <= approval_threshold <= 10000 && 1000 <= quorum_threshold <= 10000) && voting_period < MIN_VOTING_PERIOD
            ==> res == Err::<GovernanceConfig, FinovaError>(FinovaError::VotingPeriodTooShort),
        (5000 <= approval_threshold <= 10000 && 1000 <= quorum_threshold <= 10000) && voting_period > MAX_VOTING_PERIOD
            ==> res == Err::<GovernanceConfig, FinovaError>(FinovaError::VotingPeriodTooLong),
        config_params_valid(voting_period, quorum_threshold, approval_threshold) ==> res == Ok::<
            GovernanceConfig,
            FinovaError,
        >(
            GovernanceConfig {
                authority,
                voting_period,
                min_voting_power,
                quorum_threshold,
                approval_threshold,
                execution_delay,
                proposal_count: 0,
                active_proposals: 0,
                proposal_deposit,
                treasury_balance: 0,
                bump,
            },
        ),
{
    if !(approval_threshold <= 10000 && approval_threshold >= 5000) {
        return Err(FinovaError::InvalidParameter);
    }
    if !(quorum_threshold <= 10000 && quorum_threshold >= 1000) {
        return Err(FinovaError::InvalidParameter);
    }
    if voting_period < MIN_VOTING_PERIOD {
        return Err(FinovaError::VotingPeriodTooShort);
    }
    if voting_period > MAX_VOTING_PERIOD {
        return Err(FinovaError::VotingPeriodTooLong);
    }
    Ok(
        GovernanceConfig {
            authority,
            voting_period,
            min_voting_power,
            quorum_threshold,
            approval_threshold,
            execution_delay,
            proposal_count: 0,
            active_proposals: 0,
            proposal_deposit,
            treasury_balance: 0,
            bump,
        },
    )
}

/// Voting power from holdings: one per 1000 lamports held, one per 500 staked.
pub open spec fn spec_voting_power(user: UserAccount, staking: StakingAccount) -> int {
    user.fin_balance / 1000 + staking.staked_amount / 500
}

/// Voting power from holdings and stake.
pub fn calculate_voting_power(user_account: &UserAccount, staking_account: &StakingAccount) -> (power: u64)
    ensures
        power == spec_voting_power(*user_account, *staking_account),
{
    user_account.fin_balance / 1000 + staking_account.staked_amount / 500
}

/// The outcome of the checks on a new proposal, in the order they run.
pub open spec fn proposal_check(
    config: GovernanceConfig,
    user: UserAccount,
    staking: StakingAccount,
    proposal_id: u64,
    title_len: nat,
    description_len: nat,
    execution_data_len: nat,
) -> Result<(), FinovaError> {
    if proposal_id != config.proposal_count + 1 {
        Err(FinovaError::InvalidProposalId)
    } else if title_len > MAX_TITLE_LENGTH {
        Err(FinovaError::TitleTooLong)
    } else if description_len > MAX_DESCRIPTION_LENGTH {
        Err(FinovaError::DescriptionTooLong)
    } else if execution_data_len > MAX_EXECUTION_DATA_LENGTH {
        Err(FinovaError::ExecutionDataTooLong)
    } else if spec_voting_power(user, staking) < config.min_voting_power {
        Err(FinovaError::InsufficientVotingPower)
    } else if user.fin_balance < config.proposal_deposit {
        Err(FinovaError::InsufficientBalance)
    } else {
        Ok(())
    }
}

/// Opens proposal `proposal_id` (the next in sequence) for voting from `now` for one voting
/// period, after the checks of `proposal_check`; the DAO counts one more proposal and one
/// more active proposal. On failure the configuration is unchanged.
pub fn create_proposal(
    governance_config: &mut GovernanceConfig,
    user_account: &UserAccount,
    staking_account: &StakingAccount,
    proposer: [u8; 32],
    proposal_id: u64,
    title: String,
    description: String,
    proposal_type: ProposalType,
    execution_data: Vec<u8>,
    now: i64,
    bump: u8,
) -> (res: Result<Proposal, FinovaError>)
    requires
        old(governance_config).proposal_count < u64::MAX,
        old(governance_config).active_proposals < u64::MAX,
        old(governance_config).voting_period <= i64::MAX,
        now + old(governance_config).voting_period <= i64::MAX,
    ensures
        ({
            let check = proposal_check(
                *old(governance_config),
                *user_account,
                *staking_account,
                proposal_id,
                byte_len(title@),
                byte_len(description@),
                execution_data@.len(),
            );
            &&& check is Err ==> res == Err::<Proposal, FinovaError>(check->Err_0)
            &&& check is Err ==> *final(governance_config) == *old(governance_config)
            &&& check is Ok ==> res is Ok
            &&& check is Ok ==> *final(governance_config) == (GovernanceConfig {
                proposal_count: (old(governance_config).proposal_count + 1) as u64,
                active_proposals: (old(governance_config).active_proposals + 1) as u64,
                ..*old(governance_config)
            })
        }),
        res matches Ok(p) ==> {
            &&& p.id == proposal_id
            &&& p.proposer == proposer
            &&& p.title@ == title@
            &&& p.description@ == description@
            &&& p.proposal_type == proposal_type
            &&& p.status == ProposalStatus::Active
            &&& p.votes_for == 0 && p.votes_against == 0 && p.votes_abstain == 0
            &&& p.total_voting_power == 0
            &&& p.created_at == now && p.voting_starts_at == now
            &&& p.voting_ends_at == now + old(governance_config).voting_period
            &&& p.executed_at is None
            &&& p.execution_data@ == execution_data@
            &&& p.deposit_amount == old(governance_config).proposal_deposit
            &&& !p.deposit_returned
            &&& p.bump == bump
        },
{
    if proposal_id != governance_config.proposal_count + 1 {
        return Err(FinovaError::InvalidProposalId);
    }
    if string_byte_len(&title) > MAX_TITLE_LENGTH {
        return Err(FinovaError::TitleTooLong);
    }
    if string_byte_len(&description) > MAX_DESCRIPTION_LENGTH {
        return Err(FinovaError::DescriptionTooLong);
    }
    if execution_data.len() > MAX_EXECUTION_DATA_LENGTH {
        return Err(FinovaError::ExecutionDataTooLong);
    }
    let voting_power = calculate_voting_power(user_account, staking_account);
    if voting_power < governance_config.min_voting_power {
        return Err(FinovaError::InsufficientVotingPower);
    }
    if user_account.fin_balance < governance_config.proposal_deposit {
        return Err(FinovaError::InsufficientBalance);
    }
    let proposal = Proposal {
        id: proposal_id,
        proposer,
        title,
        description,
        proposal_type,
        status: ProposalStatus::Active,
        votes_for: 0,
        votes_against: 0,
        votes_abstain: 0,
        total_voting_power: 0,
        created_at: now,
        voting_starts_at: now,
        voting_ends_at: now + governance_config.voting_period as i64,
        executed_at: None,
        execution_data,
        deposit_amount: governance_config.proposal_deposit,
        deposit_returned: false,
        bump,
    };
    governance_config.proposal_count = governance_config.proposal_count + 1;
    governance_config.active_proposals = governance_config.active_proposals + 1;
    Ok(proposal)
}

/// The tally of one choice.
pub open spec fn tally_of(p: Proposal, t: VoteType) -> int {
    match t {
        VoteType::For => p.votes_for as int,
        VoteType::Against => p.votes_against as int,
        VoteType::Abstain => p.votes_abstain as int,
    }
}

/// The three tallies add up to the total voting power recorded.
pub open spec fn tally_consistent(p: Proposal) -> bool {
    p.votes_for + p.votes_against + p.votes_abstain == p.total_voting_power
}

/// The power a ballot put on its choice: its own power and the power delegated to it (nothing
/// for a voter who has not voted yet).
pub open spec fn ballot_weight(v: Vote) -> int {
    v.voting_power + v.delegated_power
}

/// The outcome of the checks on a vote at `now`.
pub open spec fn vote_check(p: Proposal, reason_len: Option<nat>, now: i64, final_power: int) -> Result<(), FinovaError> {
    if !(p.voting_starts_at <= now <= p.voting_ends_at) {
        Err(FinovaError::VotingPeriodEnded)
    } else if p.status != ProposalStatus::Active {
        Err(FinovaError::ProposalNotActive)
    } else if reason_len is Some && reason_len->0 > MAX_VOTE_REASON_LENGTH {
        Err(FinovaError::ReasonTooLong)
    } else if final_power <= 0 {
        Err(FinovaError::NoVotingPower)
    } else {
        Ok(())
    }
}

/// The byte length of an optional reason.
pub open spec fn reason_length(reason: Option<String>) -> Option<nat> {
    match reason {
        Some(r) => Some(byte_len(r@)),
        None => None,
    }
}

/// Whether a vote's tallies can be updated without overflow or underflow.
pub open spec fn vote_fits(p: Proposal, v: Vote, power: int) -> bool {
    &&& ballot_weight(v) <= tally_of(p, v.vote_type)
    &&& ballot_weight(v) <= p.total_voting_power
    &&& v.voting_power + v.delegated_power <= u64::MAX
    &&& power <= u64::MAX
    &&& p.votes_for + power <= u64::MAX
    &&& p.votes_against + power <= u64::MAX
    &&& p.votes_abstain + power <= u64::MAX
    &&& p.total_voting_power + power <= u64::MAX
}

/// Casts (or changes) `voter`'s ballot on a proposal. `total_voting_power` is the voter's own
/// weighted power; the power delegated to the voter is added to it. After the checks of
/// `vote_check`, the weight of the voter's previous ballot leaves its choice and the new power
/// joins `vote_type`, in the tallies and in the total, and the ballot records the new choice.
/// On failure nothing changes.
pub fn cast_vote(
    proposal: &mut Proposal,
    vote: &mut Vote,
    user_account: &UserAccount,
    voter: [u8; 32],
    proposal_id: u64,
    vote_type: VoteType,
    reason: Option<String>,
    total_voting_power: u64,
    now: i64,
    bump: u8,
) -> (res: Result<u64, FinovaError>)
    requires
        vote_check(*old(proposal), reason_length(reason), now, total_voting_power + user_account.delegated_voting_power)
            is Ok ==> vote_fits(
            *old(proposal),
            *old(vote),
            total_voting_power + user_account.delegated_voting_power,
        ),
    ensures
        ({
            let power = total_voting_power + user_account.delegated_voting_power;
            let check = vote_check(*old(proposal), reason_length(reason), now, power);
            let removed = |t: VoteType| if t == old(vote).vote_type { ballot_weight(*old(vote)) } else { 0 };
            let added = |t: VoteType| if t == vote_type { power } else { 0int };
            &&& check is Err ==> res == Err::<u64, FinovaError>(check->Err_0)
            &&& check is Err ==> *final(proposal) == *old(proposal) && *final(vote) == *old(vote)
            &&& check is Ok ==> {
                &&& res == Ok::<u64, FinovaError>(power as u64)
                &&& forall|t: VoteType| #[trigger] tally_of(*final(proposal), t)
                    == tally_of(*old(proposal), t) - removed(t) + added(t)
                &&& final(proposal).total_voting_power == old(proposal).total_voting_power - ballot_weight(*old(vote))
                    + power
                &&& final(proposal).status == old(proposal).status
                &&& final(proposal).voting_ends_at == old(proposal).voting_ends_at
                &&& final(vote).proposal_id == proposal_id
                &&& final(vote).voter == voter
                &&& final(vote).vote_type == vote_type
                &&& final(vote).voting_power == total_voting_power
                &&& final(vote).delegated_power == user_account.delegated_voting_power
                &&& final(vote).timestamp == now
                &&& final(vote).reason == reason
                &&& final(vote).bump == bump
            }
            &&& tally_consistent(*old(proposal)) ==> tally_consistent(*final(proposal))
        }),
{
    if !(now >= proposal.voting_starts_at && now <= proposal.voting_ends_at) {
        return Err(FinovaError::VotingPeriodEnded);
    }
    if proposal.status != ProposalStatus::Active {
        return Err(FinovaError::ProposalNotActive);
    }
    match &reason {
        Some(r) => {
            if string_byte_len(r) > MAX_VOTE_REASON_LENGTH {
                return Err(FinovaError::ReasonTooLong);
            }
        },
        None => {},
    }
    let delegated_power = user_account.delegated_voting_power;
    let final_voting_power = match total_voting_power.checked_add(delegated_power) {
        Some(p) => p,
        None => {
            return Err(FinovaError::ArithmeticOverflow);
        },
    };
    if final_voting_power == 0 {
        return Err(FinovaError::NoVotingPower);
    }
    let previous = vote.voting_power + vote.delegated_power;
    if previous > 0 {
        match vote.vote_type {
            VoteType::For => proposal.votes_for = proposal.votes_for - previous,
            VoteType::Against => proposal.votes_against = proposal.votes_against - previous,
            VoteType::Abstain => proposal.votes_abstain = proposal.votes_abstain - previous,
        }
        proposal.total_voting_power = proposal.total_voting_power - previous;
    }
    match vote_type {
        VoteType::For => proposal.votes_for = proposal.votes_for + final_voting_power,
        VoteType::Against => proposal.votes_against = proposal.votes_against + final_voting_power,
        VoteType::Abstain => proposal.votes_abstain = proposal.votes_abstain + final_voting_power,
    }
    proposal.total_voting_power = proposal.total_voting_power + final_voting_power;
    vote.proposal_id = proposal_id;
    vote.voter = voter;
    vote.vote_type = vote_type;
    vote.voting_power = total_voting_power;
    vote.delegated_power = delegated_power;
    vote.timestamp = now;
    vote.reason = reason;
    vote.bump = bump;
    Ok(final_voting_power)
}

/// Share of decided votes in favour, in basis points (0 without decided votes).
pub open spec fn approval_rate(p: Proposal) -> int {
    if p.votes_for + p.votes_against > 0 {
        p.votes_for * 10000 / (p.votes_for + p.votes_against)
    } else {
        0
    }
}

/// Whether a proposal passes: its votes reach the quorum and its approval the threshold.
pub open spec fn proposal_passes(p: Proposal, config: GovernanceConfig) -> bool {
    &&& p.votes_for + p.votes_against + p.votes_abstain >= config.quorum_threshold
    &&& approval_rate(p) >= config.approval_threshold
}

/// Closes the vote on an active proposal once its period is over (`ProposalNotActive`,
/// `VotingStillActive` otherwise): the proposal is Passed when `proposal_passes` holds and
/// Failed otherwise, and the DAO counts one active proposal fewer. Returns whether it passed.
pub fn finalize_voting(proposal: &mut Proposal, governance_config: &mut GovernanceConfig, now: i64) -> (res: Result<
    bool,
    FinovaError,
>)
    requires
        old(proposal).status == ProposalStatus::Active && now > old(proposal).voting_ends_at ==> {
            &&& old(proposal).votes_for + old(proposal).votes_against + old(proposal).votes_abstain <= u64::MAX
            &&& old(proposal).votes_for * 10000 <= u64::MAX
            &&& old(governance_config).active_proposals > 0
        },
    ensures
        old(proposal).status != ProposalStatus::Active ==> res == Err::<bool, FinovaError>(FinovaError::ProposalNotActive),
        old(proposal).status == ProposalStatus::Active && now <= old(proposal).voting_ends_at ==> res == Err::<
            bool,
            FinovaError,
        >(FinovaError::VotingStillActive),
        res is Err ==> final(proposal).status == old(proposal).status && *final(governance_config)
            == *old(governance_config),
        old(proposal).status == ProposalStatus::Active && now > old(proposal).voting_ends_at ==> {
            &&& res == Ok::<bool, FinovaError>(proposal_passes(*old(proposal), *old(governance_config)))
            &&& final(proposal).status == (if proposal_passes(*old(proposal), *old(governance_config)) {
                ProposalStatus::Passed
            } else {
                ProposalStatus::Failed
            })
            &&& *final(governance_config) == (GovernanceConfig {
                active_proposals: (old(governance_config).active_proposals - 1) as u64,
                ..*old(governance_config)
            })
        },
        final(proposal).votes_for == old(proposal).votes_for,
        final(proposal).votes_against == old(proposal).votes_against,
        final(proposal).votes_abstain == old(proposal).votes_abstain,
        final(proposal).voting_ends_at == old(proposal).voting_ends_at,
        final(proposal).executed_at == old(proposal).executed_at,
{
    if proposal.status != ProposalStatus::Active {
        return Err(FinovaError::ProposalNotActive);
    }
    if now <= proposal.voting_ends_at {
        return Err(FinovaError::VotingStillActive);
    }
    let total_votes = proposal.votes_for + proposal.votes_against + proposal.votes_abstain;
    let quorum_met = total_votes >= governance_config.quorum_threshold;
    let decided = proposal.votes_for + proposal.votes_against;
    let rate: u64 = if decided > 0 {
        (proposal.votes_for * 10000) / decided
    } else {
        0
    };
    let passed = quorum_met && rate >= governance_config.approval_threshold;
    proposal.status = if passed {
        ProposalStatus::Passed
    } else {
        ProposalStatus::Failed
    };
    governance_config.active_proposals = governance_config.active_proposals - 1;
    Ok(passed)
}

/// The outcome of the checks on executing a proposal at `now`.
pub open spec fn execution_check(p: Proposal, config: GovernanceConfig, now: i64) -> Result<(), FinovaError> {
    if p.status != ProposalStatus::Passed {
        Err(FinovaError::ProposalNotPassed)
    } else if now < p.voting_ends_at + config.execution_delay {
        Err(FinovaError::ExecutionDelayNotMet)
    } else {
        Ok(())
    }
}

/// Executes a passed proposal once its execution delay is over (`ProposalNotPassed`,
/// `ExecutionDelayNotMet` otherwise): it becomes Executed at `now`. The effect of each type of
/// proposal is applied off-chain; nothing else changes.
pub fn execute_proposal(proposal: &mut Proposal, governance_config: &mut GovernanceConfig, now: i64) -> (res: Result<
    (),
    FinovaError,
>)
    requires
        old(governance_config).execution_delay <= i64::MAX,
        old(proposal).status == ProposalStatus::Passed ==> old(proposal).voting_ends_at
            + old(governance_config).execution_delay <= i64::MAX,
    ensures
        res == execution_check(*old(proposal), *old(governance_config), now),
        res is Ok ==> final(proposal).status == ProposalStatus::Executed && final(proposal).executed_at == Some(now),
        res is Err ==> final(proposal).status == old(proposal).status && final(proposal).executed_at
            == old(proposal).executed_at,
        *final(governance_config) == *old(governance_config),
        final(proposal).voting_ends_at == old(proposal).voting_ends_at,
        final(proposal).votes_for == old(proposal).votes_for,
        final(proposal).votes_against == old(proposal).votes_against,
        final(proposal).votes_abstain == old(proposal).votes_abstain,
{
    if proposal.status != ProposalStatus::Passed {
        return Err(FinovaError::ProposalNotPassed);
    }
    if now < proposal.voting_ends_at + governance_config.execution_delay as i64 {
        return Err(FinovaError::ExecutionDelayNotMet);
    }
    proposal.status = ProposalStatus::Executed;
    proposal.executed_at = Some(now);
    Ok(())
}

/// Delegates the voting power of `delegator` (a thousandth of its holdings) to `delegate`,
/// which may not be the delegator (`CannotDelegateToSelf`). A previous delegation clears the
/// power delegated to the delegator. Returns the power delegated.
pub fn delegate_voting_power(
    delegator_account: &mut UserAccount,
    delegate_account: &mut UserAccount,
    delegator: [u8; 32],
    delegate: [u8; 32],
) -> (res: Result<u64, FinovaError>)
    requires
        delegate != delegator ==> old(delegate_account).delegated_voting_power + old(delegator_account).fin_balance
            / 1000 <= u64::MAX,
    ensures
        delegate == delegator ==> res == Err::<u64, FinovaError>(FinovaError::CannotDelegateToSelf)
            && *final(delegator_account) == *old(delegator_account) && *final(delegate_account)
            == *old(delegate_account),
        delegate != delegator ==> {
            let power = old(delegator_account).fin_balance / 1000;
            &&& res == Ok::<u64, FinovaError>(power)
            &&& *final(delegator_account) == (UserAccount {
                voting_delegate: Some(delegate),
                delegated_voting_power: if old(delegator_account).voting_delegate is Some {
                    0
                } else {
                    old(delegator_account).delegated_voting_power
                },
                ..*old(delegator_account)
            })
            &&& *final(delegate_account) == (UserAccount {
                delegated_voting_power: (old(delegate_account).delegated_voting_power + power) as u64,
                ..*old(delegate_account)
            })
        },
{
    if bytes32_eq(&delegate, &delegator) {
        return Err(FinovaError::CannotDelegateToSelf);
    }
    if delegator_account.voting_delegate.is_some() {
        delegator_account.delegated_voting_power = 0;
    }
    let voting_power = delegator_account.fin_balance / 1000;
    delegator_account.voting_delegate = Some(delegate);
    delegate_account.delegated_voting_power = delegate_account.delegated_voting_power + voting_power;
    Ok(voting_power)
}

/// Cancels an active proposal on its proposer's request before its vote ends
/// (`Unauthorized`, `ProposalNotActive`, `CannotCancelAfterVoting` otherwise).
pub fn cancel_proposal(proposal: &mut Proposal, proposer: [u8; 32], now: i64) -> (res: Result<(), FinovaError>)
    ensures
        res == (if proposer != old(proposal).proposer {
            Err(FinovaError::Unauthorized)
        } else if old(proposal).status != ProposalStatus::Active {
            Err(FinovaError::ProposalNotActive)
        } else if now >= old(proposal).voting_ends_at {
            Err(FinovaError::CannotCancelAfterVoting)
        } else {
            Ok(())
        }),
        final(proposal).status == (if res is Ok { ProposalStatus::Cancelled } else { old(proposal).status }),
        final(proposal).votes_for == old(proposal).votes_for,
        final(proposal).votes_against == old(proposal).votes_against,
        final(proposal).votes_abstain == old(proposal).votes_abstain,
{
    if !bytes32_eq(&proposer, &proposal.proposer) {
        return Err(FinovaError::Unauthorized);
    }
    if proposal.status != ProposalStatus::Active {
        return Err(FinovaError::ProposalNotActive);
    }
    if now >= proposal.voting_ends_at {
        return Err(FinovaError::CannotCancelAfterVoting);
    }
    proposal.status = ProposalStatus::Cancelled;
    Ok(())
}

/// A proposal is executed at most once: once execution succeeded, every later execution is
/// refused with `ProposalNotPassed`.
pub proof fn law_execute_once(executed: Proposal, config: GovernanceConfig, later: i64)
    requires
        executed.status == ProposalStatus::Executed,
    ensures
        execution_check(executed, config, later) == Err::<(), FinovaError>(FinovaError::ProposalNotPassed),
{
}

/// Finalization decides once: a finalized proposal is no longer active, so finalizing it again
/// is refused and casting votes on it too.
pub proof fn law_finalized_is_closed(p: Proposal, reason: Option<nat>, now: i64, power: int)
    requires
        p.status == ProposalStatus::Passed || p.status == ProposalStatus::Failed,
        p.voting_starts_at <= now <= p.voting_ends_at,
    ensures
        vote_check(p, reason, now, power) == Err::<(), FinovaError>(FinovaError::ProposalNotActive),
{
}

/// Abstentions count toward the quorum only: a proposal passes exactly when all its votes
/// (for, against and abstaining) reach the quorum and the votes for make up at least the
/// approval threshold (in basis points) of the votes for and against; so two proposals that
/// differ only in their abstentions, both reaching the quorum, pass or fail alike.
pub proof fn law_abstentions_count_for_quorum_only(p: Proposal, p2: Proposal, config: GovernanceConfig)
    ensures
        proposal_passes(p, config) == ({
            &&& p.votes_for + p.votes_against + p.votes_abstain >= config.quorum_threshold
            &&& if p.votes_for + p.votes_against > 0 {
                p.votes_for * 10000 >= config.approval_threshold * (p.votes_for + p.votes_against)
            } else {
                config.approval_threshold == 0
            }
        }),
        p2.votes_for == p.votes_for && p2.votes_against == p.votes_against
            && p.votes_for + p.votes_against + p.votes_abstain >= config.quorum_threshold
            && p2.votes_for + p2.votes_against + p2.votes_abstain >= config.quorum_threshold
            ==> proposal_passes(p2, config) == proposal_passes(p, config),
{
    let f = p.votes_for as int;
    let d = (p.votes_for + p.votes_against) as int;
    let t = config.approval_threshold as int;
    if d > 0 {
        assert(f * 10000 / d >= t <==> f * 10000 >= t * d) by (nonlinear_arith)
            requires
                d > 0,
                f >= 0,
        ;
    }
}

/// Holding and staking give voting power: each 1 000 lamports held adds one unit and each 500
/// staked adds one, so a staked lamport weighs twice a held one, and more of either never means
/// less power.
pub proof fn law_voting_power_from_holdings(user: UserAccount, staking: StakingAccount, user2: UserAccount, staking2: StakingAccount)
    requires
        user.fin_balance <= user2.fin_balance,
        staking.staked_amount <= staking2.staked_amount,
    ensures
        spec_voting_power(user, staking) <= spec_voting_power(user2, staking2),
        user2.fin_balance == user.fin_balance + 1000 && staking2.staked_amount == staking.staked_amount
            ==> spec_voting_power(user2, staking2) == spec_voting_power(user, staking) + 1,
        user2.fin_balance == user.fin_balance && staking2.staked_amount == staking.staked_amount + 500
            ==> spec_voting_power(user2, staking2) == spec_voting_power(user, staking) + 1,
        user.fin_balance == 0 && staking.staked_amount == 0 ==> spec_voting_power(user, staking) == 0,
{
}

} // verus!
