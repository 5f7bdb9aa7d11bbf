use finova::core_utils::{
    calculate_level_multiplier, calculate_mining_multiplier, calculate_regression_factor, calculate_time_decay,
    calculate_virality_multiplier, calculate_whale_regression, generate_deterministic_random, validate_guild_name,
    validate_referral_code, BASIS_POINTS,
};
use finova::events::{EventAnalytics, EventFilter};
use finova::governance_events::{
    validate_proposal_parameters, GovernanceParticipationType, GovernanceReward, ProposalParameter,
    VotingPowerCalculated,
};

#[test]
fn test_calculate_mining_multiplier() {
    let result = calculate_mining_multiplier(10000, 12000, 15000, 18000, 12000);
    assert!(result > 38000 && result < 40000);
}

#[test]
fn test_calculate_regression_factor() {
    let factor = calculate_regression_factor(1_000_000_000, 1000);
    assert_eq!(factor, 10000);
    let factor = calculate_regression_factor(100_000_000_000_000, 1000);
    assert!(factor < 10000);
}

#[test]
fn test_virality_multiplier() {
    let multiplier = calculate_virality_multiplier(1000, 10, 2, 5);
    assert_eq!(multiplier, BASIS_POINTS);
    let multiplier = calculate_virality_multiplier(1000, 100, 50, 25);
    assert!(multiplier > BASIS_POINTS);
}

#[test]
fn test_level_multiplier() {
    let multiplier = calculate_level_multiplier(5);
    assert_eq!(multiplier, BASIS_POINTS);
    let multiplier = calculate_level_multiplier(50);
    assert!(multiplier > BASIS_POINTS && multiplier < 30000);
    let multiplier = calculate_level_multiplier(100);
    assert!(multiplier >= 40000);
}

#[test]
fn test_whale_regression() {
    let regression = calculate_whale_regression(50_000 * 1_000_000_000);
    assert_eq!(regression, BASIS_POINTS);
    let regression = calculate_whale_regression(500_000 * 1_000_000_000);
    assert!(regression < BASIS_POINTS);
}

#[test]
fn test_time_decay() {
    let current_time = 1_700_000_000i64;
    let one_hour_ago = current_time - 3600;
    let decay = calculate_time_decay(one_hour_ago, current_time, 9000);
    assert!(decay < BASIS_POINTS);
}

#[test]
fn test_deterministic_random() {
    let user = [42u8; 32];
    let timestamp = 1_700_000_000i64;
    let random1 = generate_deterministic_random(&user, timestamp, 1);
    let random2 = generate_deterministic_random(&user, timestamp, 1);
    let random3 = generate_deterministic_random(&user, timestamp, 2);
    assert_eq!(random1, random2);
    assert_ne!(random1, random3);
}

#[test]
fn test_validation_functions() {
    assert!(validate_referral_code("ABC123").is_ok());
    assert!(validate_referral_code("12345").is_err());
    assert!(validate_referral_code("TOOLONGCODE123").is_err());
    assert!(validate_referral_code("ABC@123").is_err());

    assert!(validate_guild_name("CoolGuild").is_ok());
    assert!(validate_guild_name("AB").is_err());
    assert!(validate_guild_name("").is_err());
    assert!(validate_guild_name(" SpacedName ").is_err());
}

#[test]
fn test_voting_power_calculation() {
    let user = [5u8; 32];
    let voting_power = VotingPowerCalculated::calculate(user, 1000000, 50, 3, 800, 500000, 100000, 1_700_000_000);
    assert!(voting_power.final_voting_power > 0);
    assert_eq!(voting_power.user, user);
}

#[test]
fn test_governance_reward_calculation() {
    let user = [6u8; 32];
    let reward = GovernanceReward::calculate_reward(
        user,
        GovernanceParticipationType::ProposalCreation,
        1000,
        90,
        150,
        1_700_000_000,
    );
    assert!(reward.total_reward > reward.reward_amount);
    assert!(matches!(reward.participation_type, GovernanceParticipationType::ProposalCreation));
}

#[test]
fn test_proposal_parameter_validation() {
    let valid_params = vec![ProposalParameter {
        name: "mining_rate".to_string(),
        current_value: "0.05".to_string(),
        proposed_value: "0.04".to_string(),
        parameter_type: "float".to_string(),
    }];
    assert!(validate_proposal_parameters(&valid_params).is_ok());

    let invalid_params = vec![ProposalParameter {
        name: "invalid_param".to_string(),
        current_value: "0.05".to_string(),
        proposed_value: "0.04".to_string(),
        parameter_type: "float".to_string(),
    }];
    assert!(validate_proposal_parameters(&invalid_params).is_err());
}

#[test]
fn test_event_filter_security() {
    assert!(EventFilter::is_security_event("SuspiciousActivityDetected"));
    assert!(EventFilter::is_security_event("UserSuspended"));
    assert!(!EventFilter::is_security_event("TokenMinted"));
}

#[test]
fn test_event_filter_financial() {
    assert!(EventFilter::is_financial_event("TokenMinted"));
    assert!(EventFilter::is_financial_event("TokenBurned"));
    assert!(!EventFilter::is_financial_event("UserRegistered"));
}

#[test]
fn test_immediate_attention_required() {
    assert!(EventFilter::requires_immediate_attention("CircuitBreakerTriggered"));
    assert!(EventFilter::requires_immediate_attention("EmergencyPause"));
    assert!(!EventFilter::requires_immediate_attention("UserRegistered"));
}

#[test]
fn test_event_analytics() {
    let events = vec!["Event1".to_string(), "Event2".to_string()];
    let frequency = EventAnalytics::calculate_event_frequency(&events, 3600);
    assert_eq!(frequency, 2);
    let has_anomalies = EventAnalytics::detect_event_anomalies(&events, 5);
    assert!(!has_anomalies);
}
