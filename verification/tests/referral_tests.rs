use finova::core_state::{
    NetworkState, ReferralAccount, ReferralLifetimeStats, ReferralMonthlyStats, ReferralTier, UserAccount,
};
use finova::errors::FinovaError;
use finova::referral::{
    calculate_network_quality, calculate_network_quality_score, calculate_referral_tier, claim_referral_rewards,
    initialize_referral, register_referral, update_referral_rewards, upgrade_referral_tier,
};

fn referral_user() -> UserAccount {
    UserAccount {
        is_initialized: true,
        kyc_verified: false,
        bot_probability: 0,
        cooldown_until: 0,
        xp_level: 0,
        mining_rate: 0,
        has_referral_system: false,
        referral_tier: ReferralTier::Explorer,
        total_rewards_claimed: 0,
        fin_balance: 0,
        delegated_voting_power: 0,
        voting_delegate: None,
        owner: [0u8; 32],
        human_probability_score: 0,
        last_probability_update: 0,
        is_verified_human: false,
        bot_flags: 0,
        cooling_period_end: 0,
        poh_submissions: 0,
        last_poh_submission: 0,
        suspicious_reports: 0,
        is_suspended: false,
        suspension_end: 0,
        last_behavior_analysis: 0,
    }
}

fn network() -> NetworkState {
    NetworkState {
        used_referral_codes: vec![],
        total_referral_accounts: 0,
        total_referral_connections: 0,
        total_rp_distributed: 0,
        total_rewards_distributed: 0,
    }
}

fn account(owner: u8, code: &str) -> ReferralAccount {
    ReferralAccount {
        owner: [owner; 32],
        referral_code: code.to_string(),
        total_referrals: 0,
        active_referrals: 0,
        total_rp: 0,
        claimable_rewards: 0,
        referrer: None,
        tier: ReferralTier::Explorer,
        network_size: 0,
        network_quality_score: 1000,
        last_activity: 1_000,
        created_at: 1_000,
        direct_referrals: vec![],
        level_2_referrals: vec![],
        level_3_referrals: vec![],
        monthly_stats: ReferralMonthlyStats { new_referrals: 0, rp_earned: 0 },
        lifetime_stats: ReferralLifetimeStats { total_referrals: 0, total_rp_earned: 0, total_rewards_claimed: 0 },
        regression_factor: 1000,
        bump: 1,
    }
}

#[test]
fn initialize_referral_opens_an_explorer_account() {
    let mut u = referral_user();
    let mut n = network();
    let acc = initialize_referral(&mut u, &mut n, [1; 32], "ALICE_1", 5_000, 7).unwrap();
    assert_eq!(acc.referral_code, "ALICE_1");
    assert_eq!(acc.tier, ReferralTier::Explorer);
    assert_eq!(acc.network_quality_score, 1000);
    assert_eq!(acc.regression_factor, 1000);
    assert_eq!(acc.created_at, 5_000);
    assert!(u.has_referral_system);
    assert_eq!(n.used_referral_codes, vec!["ALICE_1".to_string()]);
    assert_eq!(n.total_referral_accounts, 1);
}

#[test]
fn initialize_referral_refuses_bad_and_taken_codes() {
    let mut u = referral_user();
    let mut n = network();
    assert_eq!(initialize_referral(&mut u, &mut n, [1; 32], "AB", 0, 0).unwrap_err(), FinovaError::InvalidReferralCode);
    assert_eq!(initialize_referral(&mut u, &mut n, [1; 32], "ALICE@1", 0, 0).unwrap_err(), FinovaError::InvalidReferralCode);
    assert!(initialize_referral(&mut u, &mut n, [1; 32], "ALICE1", 0, 0).is_ok());
    assert_eq!(
        initialize_referral(&mut u, &mut n, [2; 32], "ALICE1", 0, 0).unwrap_err(),
        FinovaError::ReferralCodeAlreadyExists
    );
    assert_eq!(n.total_referral_accounts, 1);
}

#[test]
fn register_referral_credits_the_referrer() {
    let mut referee_acc = account(2, "BOB222");
    let mut referee_user = referral_user();
    referee_user.kyc_verified = true;
    referee_user.xp_level = 25;
    let mut referrer_acc = account(1, "ALICE1");
    let mut referrer_user = referral_user();
    let mut n = network();
    let rp = register_referral(
        &mut referee_acc,
        &referee_user,
        &mut referrer_acc,
        &mut referrer_user,
        &mut n,
        [2; 32],
        [1; 32],
        "ALICE1",
        2_000,
    )
    .unwrap();
    assert_eq!(rp, 102);
    assert_eq!(referee_acc.referrer, Some([1; 32]));
    assert_eq!(referrer_acc.direct_referrals.len(), 1);
    assert_eq!(referrer_acc.total_referrals, 1);
    assert_eq!(referrer_acc.active_referrals, 1);
    assert_eq!(referrer_acc.total_rp, 102);
    assert_eq!(referrer_acc.claimable_rewards, 102);
    assert_eq!(n.total_referral_connections, 1);
    assert_eq!(n.total_rp_distributed, 102);
    assert_eq!(referrer_acc.network_quality_score, (1000 * 6 + 1000 * 3) / 10);
}

#[test]
fn register_referral_errors() {
    let mut referee_acc = account(2, "BOB222");
    let referee_user = referral_user();
    let mut referrer_acc = account(1, "ALICE1");
    let mut referrer_user = referral_user();
    let mut n = network();
    let r = register_referral(&mut referee_acc, &referee_user, &mut referrer_acc, &mut referrer_user, &mut n, [2; 32], [1; 32], "WRONG1", 0);
    assert_eq!(r.unwrap_err(), FinovaError::InvalidReferralCode);
    let r = register_referral(&mut referee_acc, &referee_user, &mut referrer_acc, &mut referrer_user, &mut n, [1; 32], [1; 32], "ALICE1", 0);
    assert_eq!(r.unwrap_err(), FinovaError::CannotReferSelf);
    referee_acc.referrer = Some([9; 32]);
    let r = register_referral(&mut referee_acc, &referee_user, &mut referrer_acc, &mut referrer_user, &mut n, [2; 32], [1; 32], "ALICE1", 0);
    assert_eq!(r.unwrap_err(), FinovaError::AlreadyReferred);
    assert_eq!(referrer_acc.total_rp, 0);
}

#[test]
fn explorer_capacity_is_ten_direct_referrals() {
    let mut referrer_acc = account(1, "ALICE1");
    let mut referrer_user = referral_user();
    let mut n = network();
    let referee_user = referral_user();
    for i in 0..10u8 {
        let mut referee_acc = account(10 + i, "X00000");
        assert!(register_referral(&mut referee_acc, &referee_user, &mut referrer_acc, &mut referrer_user, &mut n, [10 + i; 32], [1; 32], "ALICE1", 100).is_ok());
    }
    let mut late = account(50, "LATE00");
    let r = register_referral(&mut late, &referee_user, &mut referrer_acc, &mut referrer_user, &mut n, [50; 32], [1; 32], "ALICE1", 100);
    assert_eq!(r.unwrap_err(), FinovaError::ReferralCapacityExceeded);
}

#[test]
fn enough_rp_raises_the_tier_on_registration() {
    let mut referrer_acc = account(1, "ALICE1");
    referrer_acc.total_rp = 950;
    let mut referrer_user = referral_user();
    let mut n = network();
    let mut referee_acc = account(2, "BOB222");
    let referee_user = referral_user();
    register_referral(&mut referee_acc, &referee_user, &mut referrer_acc, &mut referrer_user, &mut n, [2; 32], [1; 32], "ALICE1", 100).unwrap();
    assert_eq!(referrer_acc.total_rp, 1000);
    assert_eq!(referrer_acc.tier, ReferralTier::Connector);
    assert_eq!(referrer_user.referral_tier, ReferralTier::Connector);
}

#[test]
fn referral_tier_thresholds() {
    assert_eq!(calculate_referral_tier(999, 0), ReferralTier::Explorer);
    assert_eq!(calculate_referral_tier(1000, 0), ReferralTier::Connector);
    assert_eq!(calculate_referral_tier(5000, 0), ReferralTier::Influencer);
    assert_eq!(calculate_referral_tier(15000, 0), ReferralTier::Leader);
    assert_eq!(calculate_referral_tier(50000, 0), ReferralTier::Ambassador);
}

#[test]
fn claim_scales_by_tier_and_regression_then_empties() {
    let mut acc = account(1, "ALICE1");
    acc.claimable_rewards = 1000;
    acc.tier = ReferralTier::Connector;
    acc.regression_factor = 500;
    let mut u = referral_user();
    let mut n = network();
    assert_eq!(claim_referral_rewards(&mut acc, &mut u, &mut n).unwrap(), 600);
    assert_eq!(acc.claimable_rewards, 0);
    assert_eq!(acc.lifetime_stats.total_rewards_claimed, 600);
    assert_eq!(u.total_rewards_claimed, 600);
    assert_eq!(n.total_rewards_distributed, 600);
    assert_eq!(claim_referral_rewards(&mut acc, &mut u, &mut n).unwrap_err(), FinovaError::NoRewardsToClaim);
}

#[test]
fn claim_that_scales_to_nothing_is_refused() {
    let mut acc = account(1, "ALICE1");
    acc.claimable_rewards = 1;
    acc.regression_factor = 50;
    let mut u = referral_user();
    let mut n = network();
    assert_eq!(claim_referral_rewards(&mut acc, &mut u, &mut n).unwrap_err(), FinovaError::InsufficientRewards);
    assert_eq!(acc.claimable_rewards, 1);
}

#[test]
fn upgrade_grants_the_tier_bonus_once_available() {
    let mut acc = account(1, "ALICE1");
    let mut u = referral_user();
    assert_eq!(upgrade_referral_tier(&mut acc, &mut u).unwrap_err(), FinovaError::TierUpgradeNotAvailable);
    acc.total_rp = 1500;
    upgrade_referral_tier(&mut acc, &mut u).unwrap();
    assert_eq!(acc.tier, ReferralTier::Connector);
    assert_eq!(acc.total_rp, 2000);
    assert_eq!(acc.claimable_rewards, 500);
    assert_eq!(u.referral_tier, ReferralTier::Connector);
}

#[test]
fn rewards_from_a_referred_users_activity() {
    let mut acc = account(2, "BOB222");
    acc.referrer = Some([1; 32]);
    let mut u = referral_user();
    u.xp_level = 10;
    u.mining_rate = 60000;
    let mut n = network();
    let rp = update_referral_rewards(&mut acc, &u, &mut n, 1000, 2000, 9_000);
    assert_eq!(rp, 55 + 300);
    assert_eq!(acc.last_activity, 9_000);
    assert_eq!(n.total_rp_distributed, 355);
    let mut orphan = account(3, "CARL33");
    assert_eq!(update_referral_rewards(&mut orphan, &u, &mut n, 1000, 2000, 9_000), 0);
}

#[test]
fn network_quality_score_weights_activity() {
    let mut acc = account(1, "ALICE1");
    assert_eq!(calculate_network_quality_score(&acc, 0), 1000);
    acc.total_referrals = 4;
    acc.active_referrals = 2;
    acc.network_size = 6;
    acc.last_activity = 100;
    assert_eq!(calculate_network_quality_score(&acc, 100 + 40 * 86400), (500 * 6 + 500 * 3 + 200) / 10);
    assert_eq!(calculate_network_quality(&mut acc, 200), (500 * 6 + 1000 * 3 + 200) / 10);
    assert_eq!(acc.network_quality_score, 620);
}
