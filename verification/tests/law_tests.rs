use finova::core_utils::{calculate_level_multiplier, calculate_time_decay, is_same_day, start_of_day};
use finova::validator_set::{
    GeographicDistribution, RewardConfig, SlashType, SlashingConfig, ValidatorSet, ValidatorStatus, VersionRequirements,
    MIN_VALIDATOR_STAKE,
};
use finova::xp::{calculate_level_from_xp, calculate_streak_multiplier, calculate_xp_tier};
use finova::core_state::XPTier;

fn tier_rank(t: XPTier) -> u8 {
    match t {
        XPTier::Bronze => 0,
        XPTier::Silver => 1,
        XPTier::Gold => 2,
        XPTier::Platinum => 3,
        XPTier::Diamond => 4,
        XPTier::Mythic => 5,
    }
}

#[test]
fn levels_never_fall_as_xp_grows() {
    let mut previous = 0;
    let mut xp = 0u64;
    while xp <= 300_000 {
        let level = calculate_level_from_xp(xp);
        assert!(level >= previous);
        previous = level;
        xp += 7;
    }
    assert_eq!(calculate_level_from_xp(999), 10);
    assert_eq!(calculate_level_from_xp(1000), 11);
    assert_eq!(calculate_level_from_xp(100_000), 101);
}

#[test]
fn tiers_never_fall_as_levels_grow() {
    let mut previous = 0;
    for level in 1..=300u32 {
        let rank = tier_rank(calculate_xp_tier(level));
        assert!(rank >= previous);
        previous = rank;
    }
}

#[test]
fn streak_multiplier_never_falls() {
    let mut previous = 0;
    for days in 0..=400u32 {
        let m = calculate_streak_multiplier(days);
        assert!(m >= previous);
        previous = m;
    }
}

#[test]
fn level_multiplier_never_falls_and_stays_in_range() {
    let mut previous = 0;
    for level in 0..=1500u16 {
        let m = calculate_level_multiplier(level);
        assert!(m >= previous);
        assert!((10000..=50000).contains(&m));
        previous = m;
    }
    assert_eq!(calculate_level_multiplier(25), 18000);
    assert_eq!(calculate_level_multiplier(75), 32000);
    assert_eq!(calculate_level_multiplier(100), 40000);
    assert_eq!(calculate_level_multiplier(2000), 50000);
}

#[test]
fn decay_never_grows_with_time() {
    for rate in [0u16, 5000, 9000, 9999, 10000, 20000] {
        let mut previous = u16::MAX;
        for hours in 0..300i64 {
            let d = calculate_time_decay(0, hours * 3600, rate);
            assert!(d <= previous);
            assert!((1..=10000).contains(&d));
            previous = d;
        }
    }
}

#[test]
fn same_day_is_an_equivalence() {
    for t in [-86401i64, -1, 0, 1, 86399, 86400, 1_700_000_000] {
        assert_eq!(start_of_day(start_of_day(t)), start_of_day(t));
        assert!(is_same_day(t, start_of_day(t)));
    }
}

fn empty_set() -> ValidatorSet {
    ValidatorSet {
        bridge_config: [0; 32],
        current_epoch: 0,
        validator_count: 0,
        active_validator_count: 0,
        total_stake: 0,
        consensus_threshold: 6700,
        last_updated: 0,
        rotation_frequency: 86400,
        next_rotation: 0,
        validators: vec![],
        epoch_history: vec![],
        slashing_config: SlashingConfig::default(),
        reward_config: RewardConfig::default(),
        geo_distribution: GeographicDistribution::default(),
        version_requirements: VersionRequirements::default(),
    }
}

#[test]
fn added_validators_are_found_and_removed_ones_are_gone() {
    let mut set = empty_set();
    set.add_validator([1; 32], MIN_VALIDATOR_STAKE, 1, 500, 0, 10).unwrap();
    set.add_validator([2; 32], MIN_VALIDATOR_STAKE * 2, 1, 500, 1, 11).unwrap();
    assert_eq!(set.get_validator(&[2; 32]).unwrap().stake, MIN_VALIDATOR_STAKE * 2);
    assert_eq!(set.total_stake, MIN_VALIDATOR_STAKE * 3);
    assert!(set.add_validator([1; 32], MIN_VALIDATOR_STAKE, 1, 500, 0, 12).is_err());
    assert_eq!(set.remove_validator([1; 32], 13).unwrap(), MIN_VALIDATOR_STAKE);
    assert!(set.get_validator(&[1; 32]).is_none());
    assert!(set.get_validator(&[2; 32]).is_some());
    assert_eq!(set.total_stake, MIN_VALIDATOR_STAKE * 2);
    assert!(set.remove_validator([1; 32], 14).is_err());
}

use finova::errors::BridgeError;
use finova::locked_tokens::{LockMetadata, LockStatus, LockedTokens};

fn blank_lock() -> LockedTokens {
    LockedTokens {
        lock_id: 0,
        user: [0; 32],
        token_mint: [0; 32],
        amount: 0,
        destination_chain: 0,
        destination_address: [0; 64],
        source_tx_hash: [0; 32],
        locked_at: 0,
        unlocked_at: 0,
        status: LockStatus::Locked,
        bridge_fee: 0,
        validator_signatures: vec![],
        required_confirmations: 0,
        current_confirmations: 0,
        nonce: 0,
        is_paused: false,
        metadata: LockMetadata { description: String::new(), tags: vec![], custom_data: vec![], priority: 0, gas_limit: 0, gas_price: 0 },
        merkle_proof: vec![],
        merkle_root: [0; 32],
        bump: 0,
    }
}

#[test]
fn a_lock_releases_once_after_enough_distinct_signatures() {
    let mut lock = blank_lock();
    lock.initialize(7, [1; 32], [2; 32], 1_000, 2, [3; 64], [4; 32], 10, 2, 1, 0, 100).unwrap();
    assert_eq!(lock.unlock(150).unwrap_err(), BridgeError::InsufficientConfirmations);
    lock.add_validator_signature([10; 32], [0; 64], [5; 32]).unwrap();
    assert_eq!(lock.add_validator_signature([10; 32], [0; 64], [5; 32]).unwrap_err(), BridgeError::ValidatorAlreadySigned);
    assert_eq!(lock.status, LockStatus::Locked);
    lock.add_validator_signature([11; 32], [0; 64], [5; 32]).unwrap();
    assert_eq!(lock.status, LockStatus::ReadyToUnlock);
    lock.emergency_pause().unwrap();
    assert_eq!(lock.unlock(200).unwrap_err(), BridgeError::InsufficientConfirmations);
    lock.resume().unwrap();
    assert_eq!(lock.status, LockStatus::ReadyToUnlock);
    lock.unlock(300).unwrap();
    assert_eq!(lock.status, LockStatus::Unlocked);
    assert_eq!(lock.unlocked_at, 300);
    assert!(lock.unlock(400).is_err());
}

#[test]
fn removal_moves_the_last_validator_into_the_gap() {
    let mut set = empty_set();
    set.add_validator([1; 32], MIN_VALIDATOR_STAKE, 1, 500, 0, 10).unwrap();
    set.add_validator([2; 32], MIN_VALIDATOR_STAKE * 2, 1, 500, 0, 11).unwrap();
    set.add_validator([3; 32], MIN_VALIDATOR_STAKE * 3, 1, 500, 0, 12).unwrap();
    assert_eq!(set.remove_validator([1; 32], 13).unwrap(), MIN_VALIDATOR_STAKE);
    let keys: Vec<[u8; 32]> = set.validators.iter().map(|v| v.pubkey).collect();
    assert_eq!(keys, vec![[3; 32], [2; 32]]);
    assert_eq!(set.validator_count, 2);
    assert_eq!(set.total_stake, MIN_VALIDATOR_STAKE * 5);
}

#[test]
fn active_validators_come_out_strongest_first() {
    let mut set = empty_set();
    set.add_validator([1; 32], MIN_VALIDATOR_STAKE, 1, 500, 0, 10).unwrap();
    set.add_validator([2; 32], MIN_VALIDATOR_STAKE * 3, 1, 500, 0, 11).unwrap();
    set.add_validator([3; 32], MIN_VALIDATOR_STAKE * 2, 1, 500, 0, 12).unwrap();
    set.add_validator([4; 32], MIN_VALIDATOR_STAKE * 3, 1, 500, 0, 13).unwrap();
    for i in [0usize, 1, 3] {
        set.validators[i].status = ValidatorStatus::Active;
    }
    let ordered = set.get_active_validators_by_power();
    let keys: Vec<[u8; 32]> = ordered.iter().map(|v| v.pubkey).collect();
    assert_eq!(keys, vec![[2; 32], [4; 32], [1; 32]]);
    for pair in ordered.windows(2) {
        assert!(pair[0].calculate_voting_power() >= pair[1].calculate_voting_power());
    }
}

#[test]
fn lock_metadata_survives_signing_pausing_and_unlocking() {
    let mut lock = blank_lock();
    lock.initialize(8, [1; 32], [2; 32], 1_000, 2, [3; 64], [4; 32], 10, 1, 1, 0, 100).unwrap();
    lock.metadata.priority = 5;
    lock.metadata.tags.push(String::from("urgent"));
    lock.add_validator_signature([10; 32], [0; 64], [5; 32]).unwrap();
    lock.emergency_pause().unwrap();
    lock.resume().unwrap();
    lock.unlock(300).unwrap();
    assert_eq!(lock.metadata.priority, 5);
    assert_eq!(lock.metadata.tags, vec![String::from("urgent")]);
}

fn open_set() -> ValidatorSet {
    let mut set = empty_set();
    set.geo_distribution.enforce_distribution = false;
    set
}

#[test]
fn slashing_an_active_validator_lowers_the_active_count() {
    let mut set = open_set();
    set.add_validator([1; 32], MIN_VALIDATOR_STAKE, 1, 500, 0, 10).unwrap();
    set.add_validator([2; 32], MIN_VALIDATOR_STAKE, 1, 500, 0, 11).unwrap();
    assert_eq!(set.active_validator_count, 2);
    set.slash_validator([1; 32], SlashType::Unavailability, 12).unwrap();
    assert_eq!(set.get_validator(&[1; 32]).unwrap().status, ValidatorStatus::Slashed);
    assert_eq!(set.active_validator_count, 1);
    set.slash_validator([1; 32], SlashType::Unavailability, 13).unwrap();
    assert_eq!(set.active_validator_count, 1);
    let active = set.validators.iter().filter(|v| v.status == ValidatorStatus::Active).count();
    assert_eq!(set.active_validator_count as usize, active);
}

#[test]
fn a_repeated_signer_counts_once_toward_consensus() {
    let mut set = open_set();
    set.add_validator([1; 32], MIN_VALIDATOR_STAKE, 1, 500, 0, 10).unwrap();
    set.add_validator([2; 32], MIN_VALIDATOR_STAKE, 1, 500, 0, 11).unwrap();
    set.add_validator([3; 32], MIN_VALIDATOR_STAKE, 1, 500, 0, 12).unwrap();
    assert_eq!(set.active_validator_count, 3);
    assert!(!set.check_consensus(&[[1; 32]]).unwrap());
    assert!(!set.check_consensus(&[[1; 32], [1; 32], [1; 32]]).unwrap());
    assert!(set.check_consensus(&[[1; 32], [2; 32], [3; 32]]).unwrap());
    assert!(set.check_consensus(&[[1; 32], [2; 32], [3; 32], [3; 32]]).unwrap());
}
