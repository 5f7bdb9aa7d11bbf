use finova::core_state::EngagementMetrics;
use finova::errors::FinovaError;
use finova::rewards::{
    apply_card_boost, calculate_base_xp, calculate_streak_bonus, check_activity, check_reward_eligibility,
    claim_accumulated_rewards, determine_mining_phase, get_card_boost_parameters, get_today_activity_count,
    record_integrated_reward, record_l1_bonus, synergy_profile, ActivityData, ActivityRecord, ActivityType,
    MiningPhase, MiningTotals, Platform, ReferralNetwork, ReferralTier, RewardsGlobalState, RewardsLedger,
    RewardsUser, SpecialCardBoost, SpecialCardType, MAX_DAILY_ACTIVITIES,
};

fn ledger() -> RewardsLedger {
    RewardsLedger {
        total_earned: 0,
        pending_rewards: 0,
        last_calculation: 0,
        calculation_count: 0,
        total_claimed: 0,
        last_claim_time: 0,
        claim_count: 0,
        referral_earnings: 0,
        recent_activities: vec![],
        active_boosts: vec![],
    }
}

fn rewards_user() -> RewardsUser {
    RewardsUser {
        is_verified: true,
        is_kyc_verified: false,
        last_reward_calculation: 0,
        total_rewards_earned: 0,
        total_claimed: 0,
        last_claim_time: 0,
        total_holdings: 0,
        referrer: None,
    }
}

fn metrics(views: u64) -> EngagementMetrics {
    EngagementMetrics { views, likes: 0, shares: 0, comments: 0 }
}

fn activity(t: ActivityType, views: u64, len: Option<u32>) -> ActivityData {
    ActivityData { activity_type: t, platform: Platform::App, engagement_metrics: metrics(views), is_original: true, content_length: len }
}

#[test]
fn activities_are_checked_before_rewards() {
    let mut l = ledger();
    assert_eq!(check_activity(&l, &activity(ActivityType::ViralContent, 999, None), 0).unwrap_err(), FinovaError::InvalidActivityData);
    assert_eq!(check_activity(&l, &activity(ActivityType::VideoContent, 0, Some(0)), 0).unwrap_err(), FinovaError::InvalidActivityData);
    assert!(check_activity(&l, &activity(ActivityType::VideoContent, 0, Some(30)), 0).is_ok());
    let record = ActivityRecord {
        activity_type: ActivityType::DailyLogin,
        platform: Platform::App,
        timestamp: 86400 * 3 + 5,
        xp_earned: 10,
        mining_bonus: 1,
        quality_score_bps: 10000,
        engagement_metrics: metrics(0),
        is_original: false,
    };
    for _ in 0..MAX_DAILY_ACTIVITIES {
        l.recent_activities.push(record);
    }
    assert_eq!(get_today_activity_count(&l, 86400 * 3 + 100), MAX_DAILY_ACTIVITIES);
    assert_eq!(get_today_activity_count(&l, 86400 * 4), 0);
    assert_eq!(check_activity(&l, &activity(ActivityType::DailyLogin, 0, None), 86400 * 3 + 100).unwrap_err(), FinovaError::DailyActivityLimitExceeded);
}

#[test]
fn base_xp_streaks_and_phases() {
    assert_eq!(calculate_base_xp(&activity(ActivityType::ViralContent, 5000, None)), 1000);
    assert_eq!(calculate_base_xp(&activity(ActivityType::QualityComment, 0, None)), 25);
    assert_eq!(calculate_streak_bonus(2), 10);
    assert_eq!(calculate_streak_bonus(7), 15);
    assert_eq!(calculate_streak_bonus(60), 30);
    assert_eq!(determine_mining_phase(100_000), MiningPhase::Finizen);
    assert_eq!(determine_mining_phase(100_001), MiningPhase::Growth);
    assert_eq!(determine_mining_phase(20_000_000), MiningPhase::Stability);
}

#[test]
fn eligibility_and_reward_bookkeeping() {
    let mut u = rewards_user();
    u.last_reward_calculation = 1_000;
    assert_eq!(check_reward_eligibility(&u, 1_500).unwrap_err(), FinovaError::RewardCalculationTooSoon);
    assert!(check_reward_eligibility(&u, 4_600).is_ok());
    u.is_verified = false;
    assert_eq!(check_reward_eligibility(&u, 9_000).unwrap_err(), FinovaError::UserNotVerified);
    u.is_verified = true;
    let mut l = ledger();
    let mut m = MiningTotals { total_mined: 0, last_mining_time: 0 };
    let mut g = RewardsGlobalState { total_users: 10, total_rewards_distributed: 0, total_active_miners: 0 };
    assert_eq!(record_integrated_reward(&mut l, &mut m, &mut u, &mut g, 250, 5_000), 250);
    assert_eq!((l.total_earned, l.pending_rewards, l.calculation_count), (250, 250, 1));
    assert_eq!((m.total_mined, u.total_rewards_earned, g.total_rewards_distributed, g.total_active_miners), (250, 250, 250, 1));
    assert_eq!(u.last_reward_calculation, 5_000);
}

#[test]
fn claims_empty_the_pending_rewards() {
    let mut l = ledger();
    let mut u = rewards_user();
    assert_eq!(claim_accumulated_rewards(&mut l, &mut u, 1_000, 100_000).unwrap_err(), FinovaError::NoPendingRewards);
    l.pending_rewards = 500;
    assert_eq!(claim_accumulated_rewards(&mut l, &mut u, 100, 100_000).unwrap_err(), FinovaError::InsufficientRewardPool);
    l.last_claim_time = 90_000;
    assert_eq!(claim_accumulated_rewards(&mut l, &mut u, 1_000, 100_000).unwrap_err(), FinovaError::ClaimTooSoon);
    assert_eq!(claim_accumulated_rewards(&mut l, &mut u, 1_000, 176_400).unwrap(), 500);
    assert_eq!((l.pending_rewards, l.total_claimed, l.claim_count, u.total_claimed), (0, 500, 1, 500));
    assert_eq!(claim_accumulated_rewards(&mut l, &mut u, 1_000, 400_000).unwrap_err(), FinovaError::NoPendingRewards);
}

#[test]
fn referral_bonus_is_pending_twice_when_the_pool_is_short() {
    let net = ReferralNetwork { tier: ReferralTier::Explorer, total_referrals: 0, active_referrals: 0, total_rp: 0, total_earnings: 0, last_earning_time: 0, contribution_to_referrer: 0 };
    let mut referrer_net = net;
    let mut referee_net = net;
    let mut l = ledger();
    assert!(record_l1_bonus(&mut l, &mut referrer_net, &mut referee_net, 40, 100, 7));
    assert_eq!(l.pending_rewards, 40);
    assert!(!record_l1_bonus(&mut l, &mut referrer_net, &mut referee_net, 40, 10, 8));
    assert_eq!(l.pending_rewards, 120);
    assert_eq!((l.referral_earnings, referrer_net.total_earnings, referee_net.contribution_to_referrer), (80, 80, 80));
    assert_eq!(referrer_net.last_earning_time, 8);
}

#[test]
fn card_boosts_are_unique_while_active_and_capped() {
    let mut l = ledger();
    assert_eq!(apply_card_boost(&mut l, 0, SpecialCardType::DoubleMining, 1_000).unwrap_err(), FinovaError::NoSpecialCardOwned);
    assert!(!apply_card_boost(&mut l, 1, SpecialCardType::DoubleMining, 1_000).unwrap());
    assert_eq!(l.active_boosts[0].end_time, 1_000 + 24 * 3600);
    assert_eq!(l.active_boosts[0].multiplier_bps, 20000);
    assert_eq!(apply_card_boost(&mut l, 1, SpecialCardType::DoubleMining, 2_000).unwrap_err(), FinovaError::CardBoostAlreadyActive);
    assert!(apply_card_boost(&mut l, 1, SpecialCardType::MiningFrenzy, 2_000).unwrap());
    assert!(apply_card_boost(&mut l, 1, SpecialCardType::XPDouble, 2_000).is_ok());
    assert!(apply_card_boost(&mut l, 1, SpecialCardType::ReferralBoost, 2_000).is_ok());
    assert!(apply_card_boost(&mut l, 1, SpecialCardType::NetworkKing, 2_000).is_ok());
    assert_eq!(apply_card_boost(&mut l, 1, SpecialCardType::XPMagnet, 2_000).unwrap_err(), FinovaError::TooManyActiveBoosts);
    assert!(apply_card_boost(&mut l, 1, SpecialCardType::DoubleMining, 1_000 + 24 * 3600 + 1).is_err());
    assert_eq!(get_card_boost_parameters(SpecialCardType::EternalMiner), (15000, 720 * 3600));
    let p = synergy_profile(&l.active_boosts, 2_500);
    assert_eq!(p.active_count, 5);
    assert!(p.has_mining_boost && p.has_xp_boost && p.has_referral_boost);
    let later = synergy_profile(&l.active_boosts, 2_000 + 25 * 3600);
    assert_eq!(later.active_count, 1);
    assert!(!later.has_mining_boost && !later.has_xp_boost && later.has_referral_boost);
}

#[test]
fn counted_boosts_run_out() {
    let mut b = SpecialCardBoost { card_type: SpecialCardType::StreakSaver, multiplier_bps: 10000, start_time: 0, end_time: 100, uses_remaining: Some(1) };
    assert!(b.is_active(50));
    assert!(b.apply_boost());
    assert!(!b.is_active(50));
    assert!(!b.apply_boost());
    let mut unlimited = SpecialCardBoost { uses_remaining: None, ..b };
    assert!(unlimited.apply_boost());
    assert!(!unlimited.is_active(101));
}
