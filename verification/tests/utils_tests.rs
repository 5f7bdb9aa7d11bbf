use finova::core_state::{GlobalConfig, ReferralTier, UserAccount, XPAccount, XPTier};
use finova::core_utils::{
    calculate_mining_multiplier, calculate_network_growth_bonus, calculate_time_decay, calculate_whale_regression,
    emergency_pause, generate_pda_seed, is_same_day, resume_operations, start_of_day, validate_amount_limits,
    validate_daily_limit, validate_mining_session, validate_not_bot, validate_not_in_cooldown, validate_staking_params,
    validate_system_operational, validate_timestamp, validate_user_account, validate_xp_requirement, ProgramControl,
};
use finova::errors::FinovaError;
use finova::events::{ActivityType, Platform};
use finova::quality::{check_platform, check_quality_assessment, record_behavior_outcome, record_device_outcome, RiskRecord};
use finova::core_state::XPBoosterType;

fn utils_user() -> UserAccount {
    UserAccount {
        is_initialized: true,
        kyc_verified: false,
        bot_probability: 0,
        cooldown_until: 0,
        xp_level: 0,
        mining_rate: 0,
        has_referral_system: false,
        referral_tier: ReferralTier::Explorer,
        total_rewards_claimed: 0,
        fin_balance: 0,
        delegated_voting_power: 0,
        voting_delegate: None,
        owner: [0u8; 32],
        human_probability_score: 0,
        last_probability_update: 0,
        is_verified_human: false,
        bot_flags: 0,
        cooling_period_end: 0,
        poh_submissions: 0,
        last_poh_submission: 0,
        suspicious_reports: 0,
        is_suspended: false,
        suspension_end: 0,
        last_behavior_analysis: 0,
    }
}

fn xp_account(total_xp: u64) -> XPAccount {
    XPAccount {
        authority: [0; 32],
        total_xp,
        current_level: 1,
        current_tier: XPTier::Bronze,
        recent_activities: vec![],
        last_activity_day: 0,
        daily_posts: 0,
        daily_comments: 0,
        daily_likes: 0,
        daily_shares: 0,
        daily_follows: 0,
        last_activity_timestamp: 0,
        current_streak: 0,
        longest_streak: 0,
        activities_count: 0,
        total_posts: 0,
        total_comments: 0,
        total_likes: 0,
        total_shares: 0,
        total_views: 0,
        achievements: vec![],
        bonus_history: vec![],
        active_booster_type: XPBoosterType::Inactive,
        active_booster_expiry: 0,
        boosters_used: 0,
        bump: 0,
    }
}

#[test]
fn decay_compounds_hourly() {
    assert_eq!(calculate_time_decay(0, 3600, 9000), 9000);
    assert_eq!(calculate_time_decay(0, 7200, 9000), 8100);
    assert_eq!(calculate_time_decay(0, 3599, 9000), 10000);
    assert_eq!(calculate_time_decay(0, 3600 * 10_000, 5000), 1);
    assert_eq!(calculate_time_decay(0, 3600 * 5, 12000), 10000);
    assert!(calculate_time_decay(0, 7200, 9000) <= calculate_time_decay(0, 3600, 9000));
}

#[test]
fn days_start_at_midnight() {
    assert_eq!(start_of_day(86400 * 5 + 77), 86400 * 5);
    assert_eq!(start_of_day(start_of_day(86400 * 5 + 77)), 86400 * 5);
    assert!(is_same_day(86400 * 5, 86400 * 6 - 1));
    assert!(!is_same_day(86400 * 5 - 1, 86400 * 5));
}

#[test]
fn exact_multiplier_products() {
    assert_eq!(calculate_mining_multiplier(10000, 12000, 15000, 18000, 12000), 38880);
    assert_eq!(calculate_mining_multiplier(10000, 10000, 10000, 10000, 10000), 10000);
    assert_eq!(calculate_whale_regression(500_000 * 1_000_000_000), 1000);
    assert_eq!(calculate_whale_regression(100_000 * 1_000_000_000 + 5_000 * 1_000_000_000), 5000);
    assert_eq!(calculate_whale_regression(100_000 * 1_000_000_000 + 20_000 * 1_000_000_000), 1000);
    assert_eq!(calculate_network_growth_bonus(1000, 50, 600), 500);
    assert_eq!(calculate_network_growth_bonus(1000, 50, 400), 400);
}

#[test]
fn pda_seed_concatenates_its_parts() {
    let seed = generate_pda_seed("user", &[9; 32], 258);
    assert_eq!(seed.len(), 4 + 32 + 8);
    assert_eq!(&seed[..4], b"user");
    assert_eq!(&seed[36..], &258u64.to_le_bytes());
}

#[test]
fn validations_name_their_errors() {
    let mut u = utils_user();
    assert!(validate_user_account(&u).is_ok());
    u.is_initialized = false;
    assert_eq!(validate_user_account(&u).unwrap_err(), FinovaError::UserNotInitialized);
    u.bot_probability = 8000;
    assert_eq!(validate_not_bot(&u).unwrap_err(), FinovaError::BotDetected);
    u.cooldown_until = 100;
    assert_eq!(validate_not_in_cooldown(&u, 99).unwrap_err(), FinovaError::UserInCooldown);
    assert!(validate_not_in_cooldown(&u, 100).is_ok());
    assert_eq!(validate_xp_requirement(&u, &xp_account(10), 11).unwrap_err(), FinovaError::InsufficientXP);
    assert_eq!(validate_daily_limit(5, 5, FinovaError::DailyLimitExceeded).unwrap_err(), FinovaError::DailyLimitExceeded);
    assert_eq!(validate_timestamp(1_000, 10, 1_011).unwrap_err(), FinovaError::InvalidTimestamp);
    assert!(validate_timestamp(1_020, 20, 1_000).is_ok());
    assert_eq!(validate_amount_limits(5, 10, 20).unwrap_err(), FinovaError::InvalidAmount);
    assert_eq!(validate_staking_params(5, 10, 10, 30).unwrap_err(), FinovaError::InsufficientStakeAmount);
    assert_eq!(validate_staking_params(50, 0, 10, 30).unwrap_err(), FinovaError::InvalidStakeDuration);
    assert_eq!(validate_mining_session(2_000, 10, 100, 1_000).unwrap_err(), FinovaError::InvalidSessionStart);
    assert_eq!(validate_mining_session(900, 200, 100, 1_000).unwrap_err(), FinovaError::SessionTooLong);
    assert_eq!(validate_mining_session(100, 50, 100, 1_000).is_ok(), true);
    let cfg = GlobalConfig { is_paused: true, emergency_stop: false };
    assert_eq!(validate_system_operational(&cfg).unwrap_err(), FinovaError::SystemPaused);
}

#[test]
fn only_the_admin_pauses_and_resumes() {
    let mut state = ProgramControl { admin: [1; 32], is_paused: false };
    assert_eq!(emergency_pause(&mut state, &[2; 32]).unwrap_err(), FinovaError::UnauthorizedAccess);
    assert!(!state.is_paused);
    emergency_pause(&mut state, &[1; 32]).unwrap();
    assert!(state.is_paused);
    resume_operations(&mut state, &[1; 32]).unwrap();
    assert!(!state.is_paused);
}

#[test]
fn xp_event_tables() {
    assert_eq!(ActivityType::VideoPost.base_xp(), 150);
    assert_eq!(ActivityType::DailyLogin.daily_limit(), Some(1));
    assert_eq!(ActivityType::Mentoring.daily_limit(), None);
    assert_eq!(Platform::FinovaApp.multiplier(), 15000);
}

#[test]
fn quality_gates_and_risk_records() {
    assert!(check_platform("tiktok").is_ok());
    assert_eq!(check_platform("myspace").unwrap_err(), FinovaError::UnsupportedPlatform);
    assert_eq!(check_quality_assessment(&[1; 32], &[2; 32], 0, 10).unwrap_err(), FinovaError::UnauthorizedQualityAssessment);
    assert_eq!(check_quality_assessment(&[1; 32], &[1; 32], 0, 86401).unwrap_err(), FinovaError::ExpiredQualityAssessment);
    assert!(check_quality_assessment(&[1; 32], &[1; 32], 0, 86400).is_ok());
    let mut r = RiskRecord { suspicious_activity_flags: 4, last_suspicious_activity: 0, penalty_multiplier_bps: 10000, penalty_expires_at: 0, device_risk_flags: 2, device_banned: false, device_ban_expires_at: 0 };
    record_behavior_outcome(&mut r, false, 5);
    assert_eq!(r.suspicious_activity_flags, 4);
    record_behavior_outcome(&mut r, true, 5);
    assert_eq!((r.suspicious_activity_flags, r.penalty_multiplier_bps, r.penalty_expires_at), (5, 5000, 5 + 604800));
    record_device_outcome(&mut r, true, 7);
    assert!(r.device_banned);
    assert_eq!(r.device_ban_expires_at, 7 + 2592000);
}

#[test]
fn whale_regression_never_eases_as_holdings_grow() {
    let fin = 1_000_000_000u64;
    assert_eq!(calculate_whale_regression(109_000 * fin), 1000);
    assert_eq!(calculate_whale_regression(165_536 * fin), 1000);
    let mut previous = calculate_whale_regression(0);
    let mut holdings = 0u64;
    while holdings <= 300_000 * fin {
        let r = calculate_whale_regression(holdings);
        assert!(r <= previous);
        assert!(r >= 1000);
        previous = r;
        holdings += 997 * fin;
    }
}
