use finova::core_state::{ReferralTier, StakingAccount, UserAccount};
use finova::errors::FinovaError;
use finova::governance::{
    cancel_proposal, cast_vote, create_proposal, delegate_voting_power, execute_proposal, finalize_voting,
    initialize_governance, GovernanceConfig, Proposal, ProposalStatus, ProposalType, Vote, VoteType,
};
use finova::governance_events::{
    calculate_proposal_impact, GovernanceMetrics, ImpactLevel, ProposalCreated, ProposalParameter, ProposalType as AnnouncedType,
    VoteCast, VoteChoice,
};

fn governance_user(balance: u64) -> UserAccount {
    UserAccount {
        is_initialized: true,
        kyc_verified: false,
        bot_probability: 0,
        cooldown_until: 0,
        xp_level: 0,
        mining_rate: 0,
        has_referral_system: false,
        referral_tier: ReferralTier::Explorer,
        total_rewards_claimed: 0,
        fin_balance: balance,
        delegated_voting_power: 0,
        voting_delegate: None,
        owner: [0u8; 32],
        human_probability_score: 0,
        last_probability_update: 0,
        is_verified_human: false,
        bot_flags: 0,
        cooling_period_end: 0,
        poh_submissions: 0,
        last_poh_submission: 0,
        suspicious_reports: 0,
        is_suspended: false,
        suspension_end: 0,
        last_behavior_analysis: 0,
    }
}

fn gov_config() -> GovernanceConfig {
    initialize_governance([1; 32], 86400, 10, 1000, 6000, 3600, 500, 1).unwrap()
}

fn empty_vote() -> Vote {
    Vote { proposal_id: 0, voter: [0; 32], vote_type: VoteType::For, voting_power: 0, delegated_power: 0, timestamp: 0, reason: None, bump: 0 }
}

fn open_proposal(cfg: &mut GovernanceConfig) -> Proposal {
    let u = governance_user(1_000_000);
    let s = StakingAccount { staked_amount: 0 };
    create_proposal(cfg, &u, &s, [7; 32], 1, "Raise rate".to_string(), "Why".to_string(), ProposalType::ParameterChange, vec![1, 2], 1_000, 9).unwrap()
}

#[test]
fn governance_parameters_are_checked() {
    assert_eq!(initialize_governance([1; 32], 86400, 0, 100, 4000, 0, 0, 0).unwrap_err(), FinovaError::InvalidParameter);
    assert_eq!(initialize_governance([1; 32], 86400, 0, 10, 6000, 0, 0, 0).unwrap_err(), FinovaError::InvalidParameter);
    assert_eq!(initialize_governance([1; 32], 60, 0, 1000, 6000, 0, 0, 0).unwrap_err(), FinovaError::VotingPeriodTooShort);
    assert_eq!(initialize_governance([1; 32], 10_000_000, 0, 1000, 6000, 0, 0, 0).unwrap_err(), FinovaError::VotingPeriodTooLong);
    let cfg = gov_config();
    assert_eq!(cfg.proposal_count, 0);
    assert_eq!(cfg.voting_period, 86400);
}

#[test]
fn proposals_are_created_in_sequence() {
    let mut cfg = gov_config();
    let p = open_proposal(&mut cfg);
    assert_eq!(p.status, ProposalStatus::Active);
    assert_eq!(p.voting_ends_at, 1_000 + 86400);
    assert_eq!(p.deposit_amount, 500);
    assert_eq!(cfg.proposal_count, 1);
    assert_eq!(cfg.active_proposals, 1);
    let u = governance_user(1_000_000);
    let s = StakingAccount { staked_amount: 0 };
    let r = create_proposal(&mut cfg, &u, &s, [7; 32], 5, "t".to_string(), "d".to_string(), ProposalType::ParameterChange, vec![], 0, 0);
    assert_eq!(r.unwrap_err(), FinovaError::InvalidProposalId);
    let long_title = "x".repeat(65);
    let r = create_proposal(&mut cfg, &u, &s, [7; 32], 2, long_title, "d".to_string(), ProposalType::ParameterChange, vec![], 0, 0);
    assert_eq!(r.unwrap_err(), FinovaError::TitleTooLong);
    let poor = governance_user(5_000);
    let r = create_proposal(&mut cfg, &poor, &s, [7; 32], 2, "t".to_string(), "d".to_string(), ProposalType::ParameterChange, vec![], 0, 0);
    assert_eq!(r.unwrap_err(), FinovaError::InsufficientVotingPower);
    assert_eq!(cfg.proposal_count, 1);
}

#[test]
fn changing_a_vote_moves_its_power() {
    let mut cfg = gov_config();
    let mut p = open_proposal(&mut cfg);
    let mut v = empty_vote();
    let mut voter = governance_user(0);
    voter.delegated_voting_power = 5;
    assert_eq!(cast_vote(&mut p, &mut v, &voter, [3; 32], 1, VoteType::For, None, 100, 2_000, 0).unwrap(), 105);
    assert_eq!((p.votes_for, p.votes_against, p.total_voting_power), (105, 0, 105));
    assert_eq!(cast_vote(&mut p, &mut v, &voter, [3; 32], 1, VoteType::Against, Some("changed".to_string()), 100, 2_001, 0).unwrap(), 105);
    assert_eq!((p.votes_for, p.votes_against, p.total_voting_power), (0, 105, 105));
    assert_eq!(p.votes_for + p.votes_against + p.votes_abstain, p.total_voting_power);
}

#[test]
fn votes_outside_the_period_or_without_power_are_refused() {
    let mut cfg = gov_config();
    let mut p = open_proposal(&mut cfg);
    let mut v = empty_vote();
    let voter = governance_user(0);
    assert_eq!(cast_vote(&mut p, &mut v, &voter, [3; 32], 1, VoteType::For, None, 100, 999, 0).unwrap_err(), FinovaError::VotingPeriodEnded);
    assert_eq!(cast_vote(&mut p, &mut v, &voter, [3; 32], 1, VoteType::For, None, 0, 2_000, 0).unwrap_err(), FinovaError::NoVotingPower);
    let reason = "r".repeat(300);
    assert_eq!(cast_vote(&mut p, &mut v, &voter, [3; 32], 1, VoteType::For, Some(reason), 10, 2_000, 0).unwrap_err(), FinovaError::ReasonTooLong);
    assert_eq!(p.total_voting_power, 0);
}

#[test]
fn finalization_checks_quorum_and_approval_and_execution_happens_once() {
    let mut cfg = gov_config();
    let mut p = open_proposal(&mut cfg);
    let mut v1 = empty_vote();
    let mut v2 = empty_vote();
    let voter = governance_user(0);
    cast_vote(&mut p, &mut v1, &voter, [3; 32], 1, VoteType::For, None, 700, 2_000, 0).unwrap();
    cast_vote(&mut p, &mut v2, &voter, [4; 32], 1, VoteType::Against, None, 300, 2_000, 0).unwrap();
    assert_eq!(finalize_voting(&mut p, &mut cfg, 2_000).unwrap_err(), FinovaError::VotingStillActive);
    let end = p.voting_ends_at;
    assert!(finalize_voting(&mut p, &mut cfg, end + 1).unwrap());
    assert_eq!(p.status, ProposalStatus::Passed);
    assert_eq!(cfg.active_proposals, 0);
    assert_eq!(finalize_voting(&mut p, &mut cfg, end + 2).unwrap_err(), FinovaError::ProposalNotActive);
    assert_eq!(execute_proposal(&mut p, &mut cfg, end + 10).unwrap_err(), FinovaError::ExecutionDelayNotMet);
    execute_proposal(&mut p, &mut cfg, end + 3600).unwrap();
    assert_eq!(p.status, ProposalStatus::Executed);
    assert_eq!(p.executed_at, Some(end + 3600));
    assert_eq!(execute_proposal(&mut p, &mut cfg, end + 7200).unwrap_err(), FinovaError::ProposalNotPassed);
}

#[test]
fn a_proposal_short_of_quorum_fails() {
    let mut cfg = gov_config();
    let mut p = open_proposal(&mut cfg);
    let mut v = empty_vote();
    cast_vote(&mut p, &mut v, &governance_user(0), [3; 32], 1, VoteType::For, None, 500, 2_000, 0).unwrap();
    let end = p.voting_ends_at;
    assert!(!finalize_voting(&mut p, &mut cfg, end + 1).unwrap());
    assert_eq!(p.status, ProposalStatus::Failed);
}

#[test]
fn delegation_and_cancellation() {
    let mut delegator = governance_user(50_000);
    let mut delegate = governance_user(0);
    assert_eq!(delegate_voting_power(&mut delegator, &mut delegate, [1; 32], [1; 32]).unwrap_err(), FinovaError::CannotDelegateToSelf);
    assert_eq!(delegate_voting_power(&mut delegator, &mut delegate, [1; 32], [2; 32]).unwrap(), 50);
    assert_eq!(delegate.delegated_voting_power, 50);
    assert_eq!(delegator.voting_delegate, Some([2; 32]));

    let mut cfg = gov_config();
    let mut p = open_proposal(&mut cfg);
    assert_eq!(cancel_proposal(&mut p, [8; 32], 2_000).unwrap_err(), FinovaError::Unauthorized);
    cancel_proposal(&mut p, [7; 32], 2_000).unwrap();
    assert_eq!(p.status, ProposalStatus::Cancelled);
    assert_eq!(cancel_proposal(&mut p, [7; 32], 2_000).unwrap_err(), FinovaError::ProposalNotActive);
}

#[test]
fn announced_records_weigh_votes_and_set_quorums() {
    let created = ProposalCreated::new(13, [1; 32], "t".to_string(), "d".to_string(), AnnouncedType::Other("x".to_string()), 100, 5, vec![], 1_000);
    assert_eq!(created.quorum_required, 100_000_000);
    assert_eq!(created.voting_end, 1_100);
    assert_eq!(ProposalCreated::calculate_quorum(7), 25_000_000);
    assert_eq!(ProposalCreated::calculate_quorum(9), 10_000_000);
    let vote = VoteCast::new(1, [2; 32], VoteChoice::For, 1_000_000, 10, 1, 0, 500, 7);
    assert_eq!(vote.weighted_voting_power, 1_000_000 * 1100 * 1200 * 1000 * 1500 / 1_000_000_000_000);
    let vote = vote.with_reason("because".to_string()).with_delegation([9; 32]);
    assert_eq!(vote.reason, Some("because".to_string()));
    assert_eq!(vote.delegate, Some([9; 32]));
}

#[test]
fn impact_is_the_highest_of_the_parameters() {
    let p = |n: &str| ProposalParameter { name: n.to_string(), current_value: "1".to_string(), proposed_value: "2".to_string(), parameter_type: "int".to_string() };
    assert_eq!(calculate_proposal_impact(&[]), ImpactLevel::Low);
    assert_eq!(calculate_proposal_impact(&[p("nft_mint_fee")]), ImpactLevel::Low);
    assert_eq!(calculate_proposal_impact(&[p("nft_mint_fee"), p("mining_rate")]), ImpactLevel::High);
    assert_eq!(calculate_proposal_impact(&[p("quorum_requirement"), p("xp_multiplier")]), ImpactLevel::Critical);
    assert_eq!(calculate_proposal_impact(&[p("other")]), ImpactLevel::Medium);
}

#[test]
fn metrics_count_proposals_and_votes() {
    let mut m = GovernanceMetrics::new(1);
    m.update_proposal_metrics("ParameterChange", "created", 2);
    m.update_proposal_metrics("ParameterChange", "created", 3);
    m.update_proposal_metrics("ParameterChange", "executed", 4);
    m.update_proposal_metrics("ParameterChange", "unknown", 5);
    assert_eq!((m.total_proposals, m.active_proposals, m.executed_proposals), (2, 1, 1));
    assert_eq!(m.last_updated, 5);
    m.update_voting_metrics(40, true, 6);
    m.update_voting_metrics(60, false, 7);
    assert_eq!((m.total_votes_cast, m.total_voting_power, m.unique_voters), (2, 100, 1));
    assert_eq!(m.average_participation_rate, 5000);
}

#[test]
fn changing_a_vote_held_only_by_delegation_never_counts_twice() {
    let mut cfg = gov_config();
    let mut p = open_proposal(&mut cfg);
    let mut v = empty_vote();
    let mut voter = governance_user(0);
    voter.delegated_voting_power = 40;
    assert_eq!(cast_vote(&mut p, &mut v, &voter, [3; 32], 1, VoteType::For, None, 0, 2_000, 0).unwrap(), 40);
    assert_eq!((p.votes_for, p.votes_against, p.total_voting_power), (40, 0, 40));
    assert_eq!(cast_vote(&mut p, &mut v, &voter, [3; 32], 1, VoteType::Against, None, 0, 2_001, 0).unwrap(), 40);
    assert_eq!((p.votes_for, p.votes_against, p.total_voting_power), (0, 40, 40));
}
