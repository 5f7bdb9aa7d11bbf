use finova::anti_bot::{
    calculate_variance, initialize_anti_bot_system, report_suspicious_activity, submit_proof_of_humanity,
    update_bot_detection_params, update_human_probability, validate_user_behavior, AntiBotConfig, BehaviorPattern,
};
use finova::core_state::{ReferralTier, UserAccount};
use finova::errors::FinovaError;

fn anti_bot_user() -> UserAccount {
    UserAccount {
        is_initialized: true,
        kyc_verified: false,
        bot_probability: 0,
        cooldown_until: 0,
        xp_level: 0,
        mining_rate: 0,
        has_referral_system: false,
        referral_tier: ReferralTier::Explorer,
        total_rewards_claimed: 0,
        fin_balance: 0,
        delegated_voting_power: 0,
        voting_delegate: None,
        owner: [4u8; 32],
        human_probability_score: 0,
        last_probability_update: 0,
        is_verified_human: false,
        bot_flags: 0,
        cooling_period_end: 0,
        poh_submissions: 0,
        last_poh_submission: 0,
        suspicious_reports: 0,
        is_suspended: false,
        suspension_end: 0,
        last_behavior_analysis: 0,
    }
}

fn bot_config() -> AntiBotConfig {
    initialize_anti_bot_system([1; 32], 80, 30, 500, 3600, 100, 1).unwrap()
}

#[test]
fn configuration_is_checked() {
    assert_eq!(initialize_anti_bot_system([1; 32], 101, 30, 500, 3600, 0, 0).unwrap_err(), FinovaError::InvalidParameter);
    assert_eq!(initialize_anti_bot_system([1; 32], 80, 30, 500, 0, 0, 0).unwrap_err(), FinovaError::InvalidParameter);
    let c = bot_config();
    assert_eq!((c.detection_threshold, c.suspicious_threshold, c.created_at), (80, 30, 100));
}

#[test]
fn human_probability_is_weighted_and_smoothed() {
    let c = bot_config();
    let mut u = anti_bot_user();
    assert_eq!(update_human_probability(&mut u, &c, 90, 90, 90, 90, 90, 1_000).unwrap(), 90);
    assert!(u.is_verified_human);
    assert_eq!(update_human_probability(&mut u, &c, 0, 0, 0, 0, 0, 2_000).unwrap(), 27);
    assert!(!u.is_verified_human);
    assert_eq!(u.bot_flags, 1);
    assert_eq!(u.human_probability_score, 27);
    assert_eq!(update_human_probability(&mut u, &c, 101, 0, 0, 0, 0, 3_000).unwrap_err(), FinovaError::InvalidParameter);
}

#[test]
fn third_suspicious_score_starts_a_cooling_period() {
    let c = bot_config();
    let mut u = anti_bot_user();
    for t in 1..=3 {
        update_human_probability(&mut u, &c, 10, 10, 10, 10, 10, t * 1000).unwrap();
    }
    assert_eq!(u.bot_flags, 3);
    assert!(!u.is_verified_human);
    assert_eq!(u.cooling_period_end, 3_000 + 3600);
}

#[test]
fn kyc_proof_raises_the_score() {
    let mut u = anti_bot_user();
    u.human_probability_score = 40;
    let p = submit_proof_of_humanity(&mut u, [4; 32], 1, [9; 32], "passport".to_string(), 50, 2).unwrap();
    assert_eq!(p.status, 0);
    assert_eq!(p.attempts, 1);
    assert!(u.kyc_verified);
    assert_eq!(u.human_probability_score, 80);
    assert_eq!(u.poh_submissions, 1);
    assert_eq!(submit_proof_of_humanity(&mut u, [4; 32], 5, [9; 32], String::new(), 60, 2).unwrap_err(), FinovaError::InvalidParameter);
    assert_eq!(submit_proof_of_humanity(&mut u, [4; 32], 2, [9; 32], "m".repeat(257), 60, 2).unwrap_err(), FinovaError::MetadataTooLong);
    assert_eq!(u.poh_submissions, 1);
}

#[test]
fn reports_penalise_and_suspend() {
    let mut reported = anti_bot_user();
    reported.human_probability_score = 50;
    let mut reporter = anti_bot_user();
    reporter.owner = [5; 32];
    reporter.is_verified_human = true;
    reporter.human_probability_score = 90;
    let r = report_suspicious_activity(&mut reported, &reporter, [5; 32], 1, [0; 32], "spam".to_string(), 4, 1_000, 0).unwrap();
    assert_eq!(r.reported_user, [4; 32]);
    assert_eq!(reported.human_probability_score, 30);
    assert_eq!(reported.bot_flags, 4);
    assert_eq!(reported.cooling_period_end, 1_000 + 86400);
    for _ in 0..4 {
        report_suspicious_activity(&mut reported, &reporter, [5; 32], 2, [0; 32], String::new(), 1, 2_000, 0).unwrap();
    }
    assert!(reported.is_suspended);
    assert_eq!(reported.suspension_end, 2_000 + 604800);
    assert_eq!(report_suspicious_activity(&mut reported, &reporter, [4; 32], 2, [0; 32], String::new(), 1, 0, 0).unwrap_err(), FinovaError::CannotReportSelf);
    let unverified = anti_bot_user();
    assert_eq!(report_suspicious_activity(&mut reported, &unverified, [6; 32], 2, [0; 32], String::new(), 1, 0, 0).unwrap_err(), FinovaError::ReporterNotVerified);
    reporter.human_probability_score = 10;
    assert_eq!(report_suspicious_activity(&mut reported, &reporter, [5; 32], 2, [0; 32], String::new(), 1, 0, 0).unwrap_err(), FinovaError::InsufficientReporterScore);
}

#[test]
fn parameter_updates_are_all_or_nothing() {
    let mut c = bot_config();
    assert_eq!(update_bot_detection_params(&mut c, [2; 32], Some(50), None, None, None, 9).unwrap_err(), FinovaError::Unauthorized);
    assert_eq!(update_bot_detection_params(&mut c, [1; 32], Some(50), Some(200), None, None, 9).unwrap_err(), FinovaError::InvalidParameter);
    assert_eq!(c.detection_threshold, 80);
    update_bot_detection_params(&mut c, [1; 32], Some(50), None, None, Some(60), 9).unwrap();
    assert_eq!((c.detection_threshold, c.suspicious_threshold, c.cooling_period, c.updated_at), (50, 30, 60, 9));
}

#[test]
fn variance_of_samples() {
    assert_eq!(calculate_variance(&[5]), 0);
    assert_eq!(calculate_variance(&[2, 4, 4, 4, 5, 5, 7, 9]), 4);
}

#[test]
fn behaviour_analysis_scores_samples() {
    let c = bot_config();
    let mut u = anti_bot_user();
    u.human_probability_score = 100;
    let mut pattern = BehaviorPattern { user: [0; 32], click_variance: 0, avg_session_duration: 0, behavior_score: 0, pattern_count: 0, last_analysis: 0, updated_at: 0, bump: 0 };
    let clicks = vec![100, 3100, 100, 3100];
    let sessions = vec![60000, 120000];
    let stamps = vec![0, 60, 120];
    let score = validate_user_behavior(&mut u, &mut pattern, &c, clicks, sessions, stamps, vec![], 500).unwrap();
    assert_eq!(pattern.click_variance, 2_250_000);
    assert_eq!(score, 100);
    assert_eq!(pattern.pattern_count, 1);
    assert_eq!(u.human_probability_score, ((100 * 70 + score as u32 * 30) / 100) as u16);
    assert_eq!(validate_user_behavior(&mut u, &mut pattern, &c, vec![0; 101], vec![], vec![], vec![], 0).unwrap_err(), FinovaError::TooManyPatterns);
}
