//! Phase, tier and rate tables of the mining economy, and the on-chain approximation of
//! exponential decay.
use vstd::prelude::*;

use crate::core_constants::{
    AMBASSADOR_MINING_BONUS,
    AMBASSADOR_REFERRAL_LIMIT,
    AMBASSADOR_RP_MIN,
    BASIC_STAKE_APY,
    BASIC_STAKE_MIN,
    BRONZE_MINING_MULTIPLIER_MAX,
    BRONZE_MINING_MULTIPLIER_MIN,
    CONNECTOR_MINING_BONUS,
    CONNECTOR_REFERRAL_LIMIT,
    CONNECTOR_RP_MIN,
    DIAMOND_LEVEL_START,
    DIAMOND_MINING_MULTIPLIER_MAX,
    DIAMOND_MINING_MULTIPLIER_MIN,
    ELITE_STAKE_APY,
    ELITE_STAKE_MIN,
    EXPLORER_MINING_BONUS,
    EXPLORER_REFERRAL_LIMIT,
    GOLD_LEVEL_START,
    GOLD_MINING_MULTIPLIER_MAX,
    GOLD_MINING_MULTIPLIER_MIN,
    INFLUENCER_MINING_BONUS,
    INFLUENCER_REFERRAL_LIMIT,
    INFLUENCER_RP_MIN,
    LEADER_MINING_BONUS,
    LEADER_REFERRAL_LIMIT,
    LEADER_RP_MIN,
    MYTHIC_LEVEL_START,
    MYTHIC_MINING_MULTIPLIER_MAX,
    MYTHIC_MINING_MULTIPLIER_MIN,
    PHASE_1_BASE_RATE,
    PHASE_1_DAILY_CAP,
    PHASE_1_FINIZEN_BONUS,
    PHASE_1_USER_THRESHOLD,
    PHASE_2_BASE_RATE,
    PHASE_2_DAILY_CAP,
    PHASE_2_FINIZEN_BONUS,
    PHASE_2_USER_THRESHOLD,
    PHASE_3_BASE_RATE,
    PHASE_3_DAILY_CAP,
    PHASE_3_FINIZEN_BONUS,
    PHASE_3_USER_THRESHOLD,
    PHASE_4_BASE_RATE,
    PHASE_4_DAILY_CAP,
    PHASE_4_FINIZEN_BONUS,
    PLATINUM_LEVEL_START,
    PLATINUM_MINING_MULTIPLIER_MAX,
    PLATINUM_MINING_MULTIPLIER_MIN,
    PRECISION_MULTIPLIER,
    PREMIUM_STAKE_APY,
    PREMIUM_STAKE_MIN,
    SILVER_LEVEL_START,
    SILVER_MINING_MULTIPLIER_MAX,
    SILVER_MINING_MULTIPLIER_MIN,
    VIP_STAKE_APY,
    VIP_STAKE_MIN,
    WHALE_STAKE_APY,
    WHALE_STAKE_MIN,
};

verus! {

/// The mining phase that a network of `total_users` users is in.
pub open spec fn spec_mining_phase(total_users: u64) -> u8 {
    if total_users < PHASE_1_USER_THRESHOLD {
        1
    } else if total_users < PHASE_2_USER_THRESHOLD {
        2
    } else if total_users < PHASE_3_USER_THRESHOLD {
        3
    } else {
        4
    }
}

/// Mining phase (1 to 4) for the given number of users.
pub fn get_mining_phase(total_users: u64) -> (phase: u8)
    ensures
        phase == spec_mining_phase(total_users),
        1 <= phase <= 4,
{
    if total_users < PHASE_1_USER_THRESHOLD {
        1
    } else if total_users < PHASE_2_USER_THRESHOLD {
        2
    } else if total_users < PHASE_3_USER_THRESHOLD {
        3
    } else {
        4
    }
}

/// The base mining rate of a phase; phases past the fourth take the fourth's rate.
pub fn get_base_mining_rate(phase: u8) -> (rate: u64)
    ensures
        rate == (if phase == 1 {
            PHASE_1_BASE_RATE
        } else if phase == 2 {
            PHASE_2_BASE_RATE
        } else if phase == 3 {
            PHASE_3_BASE_RATE
        } else {
            PHASE_4_BASE_RATE
        }),
{
    match phase {
        1 => PHASE_1_BASE_RATE,
        2 => PHASE_2_BASE_RATE,
        3 => PHASE_3_BASE_RATE,
        _ => PHASE_4_BASE_RATE,
    }
}

/// The Finizen (early adopter) bonus of a phase.
pub fn get_finizen_bonus(phase: u8) -> (bonus: u64)
    ensures
        bonus == (if phase == 1 {
            PHASE_1_FINIZEN_BONUS
        } else if phase == 2 {
            PHASE_2_FINIZEN_BONUS
        } else if phase == 3 {
            PHASE_3_FINIZEN_BONUS
        } else {
            PHASE_4_FINIZEN_BONUS
        }),
{
    match phase {
        1 => PHASE_1_FINIZEN_BONUS,
        2 => PHASE_2_FINIZEN_BONUS,
        3 => PHASE_3_FINIZEN_BONUS,
        _ => PHASE_4_FINIZEN_BONUS,
    }
}

/// The daily mining cap of a phase.
pub fn get_daily_mining_cap(phase: u8) -> (cap: u64)
    ensures
        cap == (if phase == 1 {
            PHASE_1_DAILY_CAP
        } else if phase == 2 {
            PHASE_2_DAILY_CAP
        } else if phase == 3 {
            PHASE_3_DAILY_CAP
        } else {
            PHASE_4_DAILY_CAP
        }),
{
    match phase {
        1 => PHASE_1_DAILY_CAP,
        2 => PHASE_2_DAILY_CAP,
        3 => PHASE_3_DAILY_CAP,
        _ => PHASE_4_DAILY_CAP,
    }
}

/// The XP tier of a level: 1 (Bronze) to 6 (Mythic).
pub open spec fn spec_xp_tier(level: u32) -> u8 {
    if level >= MYTHIC_LEVEL_START {
        6
    } else if level >= DIAMOND_LEVEL_START {
        5
    } else if level >= PLATINUM_LEVEL_START {
        4
    } else if level >= GOLD_LEVEL_START {
        3
    } else if level >= SILVER_LEVEL_START {
        2
    } else {
        1
    }
}

/// The XP tier of a level: 1 (Bronze) to 6 (Mythic).
pub fn get_xp_tier_from_level(level: u32) -> (tier: u8)
    ensures
        tier == spec_xp_tier(level),
{
    if level >= MYTHIC_LEVEL_START {
        6
    } else if level >= DIAMOND_LEVEL_START {
        5
    } else if level >= PLATINUM_LEVEL_START {
        4
    } else if level >= GOLD_LEVEL_START {
        3
    } else if level >= SILVER_LEVEL_START {
        2
    } else {
        1
    }
}

/// The range of the mining multiplier of an XP tier; unknown tiers take Bronze's.
pub fn get_xp_mining_multiplier_range(tier: u8) -> (range: (u64, u64))
    ensures
        range == (if tier == 2 {
            (SILVER_MINING_MULTIPLIER_MIN, SILVER_MINING_MULTIPLIER_MAX)
        } else if tier == 3 {
            (GOLD_MINING_MULTIPLIER_MIN, GOLD_MINING_MULTIPLIER_MAX)
        } else if tier == 4 {
            (PLATINUM_MINING_MULTIPLIER_MIN, PLATINUM_MINING_MULTIPLIER_MAX)
        } else if tier == 5 {
            (DIAMOND_MINING_MULTIPLIER_MIN, DIAMOND_MINING_MULTIPLIER_MAX)
        } else if tier == 6 {
            (MYTHIC_MINING_MULTIPLIER_MIN, MYTHIC_MINING_MULTIPLIER_MAX)
        } else {
            (BRONZE_MINING_MULTIPLIER_MIN, BRONZE_MINING_MULTIPLIER_MAX)
        }),
{
    match tier {
        2 => (SILVER_MINING_MULTIPLIER_MIN, SILVER_MINING_MULTIPLIER_MAX),
        3 => (GOLD_MINING_MULTIPLIER_MIN, GOLD_MINING_MULTIPLIER_MAX),
        4 => (PLATINUM_MINING_MULTIPLIER_MIN, PLATINUM_MINING_MULTIPLIER_MAX),
        5 => (DIAMOND_MINING_MULTIPLIER_MIN, DIAMOND_MINING_MULTIPLIER_MAX),
        6 => (MYTHIC_MINING_MULTIPLIER_MIN, MYTHIC_MINING_MULTIPLIER_MAX),
        _ => (BRONZE_MINING_MULTIPLIER_MIN, BRONZE_MINING_MULTIPLIER_MAX),
    }
}

/// The referral-points tier: 1 (Explorer) to 5 (Ambassador).
pub open spec fn spec_rp_tier(rp_amount: u64) -> u8 {
    if rp_amount >= AMBASSADOR_RP_MIN {
        5
    } else if rp_amount >= LEADER_RP_MIN {
        4
    } else if rp_amount >= INFLUENCER_RP_MIN {
        3
    } else if rp_amount >= CONNECTOR_RP_MIN {
        2
    } else {
        1
    }
}

/// The referral-points tier: 1 (Explorer) to 5 (Ambassador).
pub fn get_rp_tier(rp_amount: u64) -> (tier: u8)
    ensures
        tier == spec_rp_tier(rp_amount),
{
    if rp_amount >= AMBASSADOR_RP_MIN {
        5
    } else if rp_amount >= LEADER_RP_MIN {
        4
    } else if rp_amount >= INFLUENCER_RP_MIN {
        3
    } else if rp_amount >= CONNECTOR_RP_MIN {
        2
    } else {
        1
    }
}

/// The mining bonus of a referral-points tier; unknown tiers take Explorer's.
pub fn get_rp_mining_bonus(tier: u8) -> (bonus: u64)
    ensures
        bonus == (if tier == 2 {
            CONNECTOR_MINING_BONUS
        } else if tier == 3 {
            INFLUENCER_MINING_BONUS
        } else if tier == 4 {
            LEADER_MINING_BONUS
        } else if tier == 5 {
            AMBASSADOR_MINING_BONUS
        } else {
            EXPLORER_MINING_BONUS
        }),
{
    match tier {
        2 => CONNECTOR_MINING_BONUS,
        3 => INFLUENCER_MINING_BONUS,
        4 => LEADER_MINING_BONUS,
        5 => AMBASSADOR_MINING_BONUS,
        _ => EXPLORER_MINING_BONUS,
    }
}

/// The referral limit of a referral-points tier; unknown tiers take Explorer's.
pub fn get_referral_limit(tier: u8) -> (limit: u32)
    ensures
        limit == (if tier == 2 {
            CONNECTOR_REFERRAL_LIMIT
        } else if tier == 3 {
            INFLUENCER_REFERRAL_LIMIT
        } else if tier == 4 {
            LEADER_REFERRAL_LIMIT
        } else if tier == 5 {
            AMBASSADOR_REFERRAL_LIMIT
        } else {
            EXPLORER_REFERRAL_LIMIT
        }),
{
    match tier {
        2 => CONNECTOR_REFERRAL_LIMIT,
        3 => INFLUENCER_REFERRAL_LIMIT,
        4 => LEADER_REFERRAL_LIMIT,
        5 => AMBASSADOR_REFERRAL_LIMIT,
        _ => EXPLORER_REFERRAL_LIMIT,
    }
}

/// The staking tier of a staked amount: 0 (none) to 5 (Whale).
pub open spec fn spec_staking_tier(staked_amount: u64) -> u8 {
    if staked_amount >= WHALE_STAKE_MIN {
        5
    } else if staked_amount >= ELITE_STAKE_MIN {
        4
    } else if staked_amount >= VIP_STAKE_MIN {
        3
    } else if staked_amount >= PREMIUM_STAKE_MIN {
        2
    } else if staked_amount >= BASIC_STAKE_MIN {
        1
    } else {
        0
    }
}

/// The staking tier of a staked amount: 0 (none) to 5 (Whale).
pub fn get_staking_tier(staked_amount: u64) -> (tier: u8)
    ensures
        tier == spec_staking_tier(staked_amount),
{
    if staked_amount >= WHALE_STAKE_MIN {
        5
    } else if staked_amount >= ELITE_STAKE_MIN {
        4
    } else if staked_amount >= VIP_STAKE_MIN {
        3
    } else if staked_amount >= PREMIUM_STAKE_MIN {
        2
    } else if staked_amount >= BASIC_STAKE_MIN {
        1
    } else {
        0
    }
}

/// The yearly yield of a staking tier, in basis points; none without a tier.
pub fn get_staking_apy(tier: u8) -> (apy: u64)
    ensures
        apy == (if tier == 1 {
            BASIC_STAKE_APY
        } else if tier == 2 {
            PREMIUM_STAKE_APY
        } else if tier == 3 {
            VIP_STAKE_APY
        } else if tier == 4 {
            ELITE_STAKE_APY
        } else if tier == 5 {
            WHALE_STAKE_APY
        } else {
            0
        }),
{
    match tier {
        1 => BASIC_STAKE_APY,
        2 => PREMIUM_STAKE_APY,
        3 => VIP_STAKE_APY,
        4 => ELITE_STAKE_APY,
        5 => WHALE_STAKE_APY,
        _ => 0,
    }
}

/// `e^(-x)` in millionths for `x = coefficient * holdings` millionths, approximated as
/// `1 / (1 + x + x^2/2 + x^3/6)` and floored at one millionth from `x = 0.02` on.
pub open spec fn spec_exponential_decay(holdings: u64, coefficient: u64) -> int {
    let p = PRECISION_MULTIPLIER as int;
    let x = (coefficient * holdings) / p;
    if x == 0 {
        p
    } else if x >= 20 * p / 1000 {
        1
    } else {
        let x2 = (x * x) / p;
        let x3 = (x2 * x) / p;
        (p * p) / (p + x + x2 / 2 + x3 / 6)
    }
}

/// Exponential decay of holdings, in millionths (see `spec_exponential_decay`).
pub fn calculate_exponential_decay(holdings: u64, coefficient: u64) -> (decay: u64)
    requires
        coefficient * holdings <= u64::MAX,
    ensures
        decay == spec_exponential_decay(holdings, coefficient),
        1 <= decay <= PRECISION_MULTIPLIER,
{
    let exponent = (coefficient * holdings) / PRECISION_MULTIPLIER;
    if exponent == 0 {
        PRECISION_MULTIPLIER
    } else if exponent >= 20 * PRECISION_MULTIPLIER / 1000 {
        1
    } else {
        let x = exponent;
        assert(x * x <= 20000 * 20000) by (nonlinear_arith)
            requires
                x < 20000,
        ;
        let x_squared = (x * x) / PRECISION_MULTIPLIER;
        assert(x_squared <= 400);
        assert(x_squared * x <= 400 * 20000) by (nonlinear_arith)
            requires
                x_squared <= 400,
                x < 20000,
        ;
        let x_cubed = (x_squared * x) / PRECISION_MULTIPLIER;
        let denominator = PRECISION_MULTIPLIER + x + x_squared / 2 + x_cubed / 6;
        let r = PRECISION_MULTIPLIER * PRECISION_MULTIPLIER / denominator;
        assert(r <= 1000000) by (nonlinear_arith)
            requires
                r == 1000000000000u64 / denominator,
                denominator >= 1000000,
        ;
        assert(r >= 1) by (nonlinear_arith)
            requires
                r == 1000000000000u64 / denominator,
                1000000 <= denominator <= 1100000,
        ;
        r
    }
}

} // verus!
