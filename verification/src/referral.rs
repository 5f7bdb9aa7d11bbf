//! Referral network: codes, registration of referees, referral points (RP), tiers, claims of
//! rewards and the quality score of a network.
use vstd::prelude::*;

use crate::core_state::{
    referral_tier_index, referral_tier_rank, used_codes, NetworkState, ReferralAccount, ReferralInfo,
    ReferralLifetimeStats, ReferralMonthlyStats, ReferralTier, UserAccount,
};
use crate::errors::FinovaError;
use crate::merkle::bytes32_eq;
use crate::text::{all_code_chars, is_code_char};

verus! {

/// Shortest referral code, in bytes.
pub const MIN_REFERRAL_CODE_LENGTH: usize = 6;
/// Longest referral code, in bytes.
pub const MAX_REFERRAL_CODE_LENGTH: usize = 12;
/// Network quality score of a network without referrals (100.0%).
pub const FULL_QUALITY_SCORE: u64 = 1000;
/// Regression factor of a fresh account (100.0%).
pub const NO_REGRESSION: u64 = 1000;

/// How many direct referrals a tier admits.
pub open spec fn spec_max_referrals(tier: ReferralTier) -> usize {
    match tier {
        ReferralTier::Explorer => 10,
        ReferralTier::Connector => 25,
        ReferralTier::Influencer => 50,
        ReferralTier::Leader => 100,
        ReferralTier::Ambassador => usize::MAX,
    }
}

/// The tier that a total of referral points earns.
pub open spec fn spec_referral_tier(total_rp: u64) -> ReferralTier {
    if total_rp <= 999 {
        ReferralTier::Explorer
    } else if total_rp <= 4999 {
        ReferralTier::Connector
    } else if total_rp <= 14999 {
        ReferralTier::Influencer
    } else if total_rp <= 49999 {
        ReferralTier::Leader
    } else {
        ReferralTier::Ambassador
    }
}

/// Reward multiplier of a tier, in thousandths.
pub open spec fn spec_tier_multiplier(tier: ReferralTier) -> u64 {
    match tier {
        ReferralTier::Explorer => 1000,
        ReferralTier::Connector => 1200,
        ReferralTier::Influencer => 1500,
        ReferralTier::Leader => 2000,
        ReferralTier::Ambassador => 3000,
    }
}

/// RP granted on reaching a tier.
pub open spec fn spec_tier_upgrade_bonus(tier: ReferralTier) -> u64 {
    match tier {
        ReferralTier::Explorer => 0,
        ReferralTier::Connector => 500,
        ReferralTier::Influencer => 1500,
        ReferralTier::Leader => 5000,
        ReferralTier::Ambassador => 15000,
    }
}

/// RP a referrer earns when a user joins: 100 for a verified user, 50 otherwise, plus a tenth
/// of the user's level.
pub open spec fn spec_initial_rp(kyc_verified: bool, xp_level: u32) -> int {
    (if kyc_verified { 100int } else { 50int }) + xp_level as int / 10
}

/// RP from XP: 5% of the XP, raised by 1% per level of the user.
pub open spec fn spec_xp_rp(xp_gained: u64, level: u32) -> int {
    (xp_gained * 5 / 100) * (1000 + level * 10) / 1000
}

/// RP from mining: 10% of the amount, half as much again for a miner above 50 000.
pub open spec fn spec_mining_rp(mining_amount: u64, mining_rate: u64) -> int {
    (mining_amount * 10 / 100) * (if mining_rate > 50000 { 1500int } else { 1000int }) / 1000
}

/// Whether the RP computations of an update stay within `u64`.
pub open spec fn rp_fits(xp_gained: u64, level: u32, mining_amount: u64) -> bool {
    &&& xp_gained * 5 <= u64::MAX
    &&& 1000 + level * 10 <= u32::MAX
    &&& (xp_gained * 5 / 100) * (1000 + level * 10) <= u64::MAX
    &&& mining_amount * 10 <= u64::MAX
    &&& (mining_amount * 10 / 100) * 1500 <= u64::MAX
}

/// The quality score of a referral network, in tenths of a percent: 60% the share of active
/// referrals, 30% recent activity (full within 30 days, half otherwise) and 10% a bonus for a
/// network deeper than its direct referrals.
pub open spec fn spec_quality_score(
    total_referrals: u32,
    active_referrals: u32,
    last_activity: i64,
    network_size: u32,
    now: i64,
) -> int {
    if total_referrals == 0 {
        1000
    } else {
        let active_ratio = active_referrals as int * 1000 / total_referrals as int;
        let activity = if last_activity > 0 {
            if (now - last_activity) / 86400 < 30 { 1000int } else { 500int }
        } else {
            500int
        };
        let diversity = if network_size > total_referrals { 200int } else { 0int };
        (active_ratio * 6 + activity * 3 + diversity) / 10
    }
}

/// The quality score of an account at time `now`.
pub open spec fn account_quality(a: ReferralAccount, now: i64) -> int {
    spec_quality_score(a.total_referrals, a.active_referrals, a.last_activity, a.network_size, now)
}

/// Whether `now - last_activity` can be computed.
pub open spec fn activity_age_fits(last_activity: i64, now: i64) -> bool {
    last_activity > 0 ==> i64::MIN <= now - last_activity
}

/// Whether a code has an admissible length and only admissible characters.
pub open spec fn is_valid_code(code: &str) -> bool {
    &&& MIN_REFERRAL_CODE_LENGTH <= code.len() <= MAX_REFERRAL_CODE_LENGTH
    &&& forall|i: int| 0 <= i < code@.len() ==> is_code_char(#[trigger] code@[i])
}

/// A referral account as it is opened.
pub open spec fn is_fresh_referral(a: ReferralAccount, owner: [u8; 32], code: Seq<char>, now: i64, bump: u8) -> bool {
    &&& a.owner == owner
    &&& a.referral_code@ == code
    &&& a.total_referrals == 0
    &&& a.active_referrals == 0
    &&& a.total_rp == 0
    &&& a.claimable_rewards == 0
    &&& a.referrer is None
    &&& a.tier == ReferralTier::Explorer
    &&& a.network_size == 0
    &&& a.network_quality_score == FULL_QUALITY_SCORE
    &&& a.last_activity == now
    &&& a.created_at == now
    &&& a.direct_referrals@.len() == 0
    &&& a.level_2_referrals@.len() == 0
    &&& a.level_3_referrals@.len() == 0
    &&& a.monthly_stats == ReferralMonthlyStats { new_referrals: 0, rp_earned: 0 }
    &&& a.lifetime_stats == ReferralLifetimeStats { total_referrals: 0, total_rp_earned: 0, total_rewards_claimed: 0 }
    &&& a.regression_factor == NO_REGRESSION
    &&& a.bump == bump
}

/// How many direct referrals a tier admits.
pub fn get_max_referrals_for_tier(tier: ReferralTier) -> (n: usize)
    ensures
        n == spec_max_referrals(tier),
{
    match tier {
        ReferralTier::Explorer => 10,
        ReferralTier::Connector => 25,
        ReferralTier::Influencer => 50,
        ReferralTier::Leader => 100,
        ReferralTier::Ambassador => usize::MAX,
    }
}

/// The tier that a total of referral points earns; the count of active referrals plays no part.
pub fn calculate_referral_tier(total_rp: u64, active_referrals: u32) -> (tier: ReferralTier)
    ensures
        tier == spec_referral_tier(total_rp),
{
    if total_rp <= 999 {
        ReferralTier::Explorer
    } else if total_rp <= 4999 {
        ReferralTier::Connector
    } else if total_rp <= 14999 {
        ReferralTier::Influencer
    } else if total_rp <= 49999 {
        ReferralTier::Leader
    } else {
        ReferralTier::Ambassador
    }
}

/// Reward multiplier of a tier, in thousandths.
pub fn get_referral_tier_multiplier(tier: ReferralTier) -> (m: u64)
    ensures
        m == spec_tier_multiplier(tier),
{
    match tier {
        ReferralTier::Explorer => 1000,
        ReferralTier::Connector => 1200,
        ReferralTier::Influencer => 1500,
        ReferralTier::Leader => 2000,
        ReferralTier::Ambassador => 3000,
    }
}

/// RP granted on reaching a tier.
pub fn get_tier_upgrade_bonus(tier: ReferralTier) -> (bonus: u64)
    ensures
        bonus == spec_tier_upgrade_bonus(tier),
{
    match tier {
        ReferralTier::Explorer => 0,
        ReferralTier::Connector => 500,
        ReferralTier::Influencer => 1500,
        ReferralTier::Leader => 5000,
        ReferralTier::Ambassador => 15000,
    }
}

/// RP a referrer earns when `referee_account` joins.
pub fn calculate_initial_referral_rp(referee_account: &UserAccount) -> (rp: u64)
    ensures
        rp == spec_initial_rp(referee_account.kyc_verified, referee_account.xp_level),
{
    let base_rp: u64 = if referee_account.kyc_verified { 100 } else { 50 };
    base_rp + (referee_account.xp_level / 10) as u64
}

/// RP from XP gained by a referred user of level `referrer_level`.
pub fn calculate_xp_referral_rp(xp_gained: u64, referrer_level: u32) -> (rp: u64)
    requires
        rp_fits(xp_gained, referrer_level, 0),
    ensures
        rp == spec_xp_rp(xp_gained, referrer_level),
{
    let base_rp = (xp_gained * 5) / 100;
    let level_multiplier = 1000 + referrer_level * 10;
    (base_rp * level_multiplier as u64) / 1000
}

/// RP from mining by a referred user mining at `mining_rate`.
pub fn calculate_mining_referral_rp(mining_amount: u64, mining_rate: u64) -> (rp: u64)
    requires
        rp_fits(0, 0, mining_amount),
    ensures
        rp == spec_mining_rp(mining_amount, mining_rate),
{
    let base_rp = (mining_amount * 10) / 100;
    let rate_multiplier: u64 = if mining_rate > 50000 { 1500 } else { 1000 };
    (base_rp * rate_multiplier) / 1000
}

/// Whether a code may be used: only alphanumeric characters, `_` and `-`.
pub fn is_valid_referral_code(code: &str) -> (r: bool)
    ensures
        r == (forall|i: int| 0 <= i < code@.len() ==> is_code_char(#[trigger] code@[i])),
{
    all_code_chars(code)
}

/// The quality score of a referral network at time `current_time`, in tenths of a percent.
/// While no referral is more active than all of them, it never exceeds 100%.
pub fn calculate_network_quality_score(referral_account: &ReferralAccount, current_time: i64) -> (score: u64)
    requires
        activity_age_fits(referral_account.last_activity, current_time),
    ensures
        score == account_quality(*referral_account, current_time),
        referral_account.active_referrals <= referral_account.total_referrals ==> score <= FULL_QUALITY_SCORE,
{
    if referral_account.total_referrals == 0 {
        return 1000;
    }
    let active_ratio: u64 = (referral_account.active_referrals as u64 * 1000) / referral_account.total_referrals as u64;
    let activity_score: u64 = if referral_account.last_activity > 0 {
        let days_since_activity = (current_time - referral_account.last_activity) / 86400;
        if days_since_activity < 30 { 1000 } else { 500 }
    } else {
        500
    };
    let diversity_bonus: u64 = if referral_account.network_size > referral_account.total_referrals {
        200
    } else {
        0
    };
    proof {
        if referral_account.active_referrals <= referral_account.total_referrals {
            assert(active_ratio <= 1000) by (nonlinear_arith)
                requires
                    active_ratio == (referral_account.active_referrals as int * 1000) / (referral_account.total_referrals as int),
                    referral_account.active_referrals <= referral_account.total_referrals,
                    referral_account.total_referrals > 0,
            ;
        }
        assert(active_ratio <= 1000 * 4294967295) by (nonlinear_arith)
            requires
                active_ratio == (referral_account.active_referrals as int * 1000) / (referral_account.total_referrals as int),
                referral_account.total_referrals > 0,
        ;
    }
    ((active_ratio * 6) + (activity_score * 3) + diversity_bonus) / 10
}

/// Whether `code` is among the taken codes, as a character sequence.
pub fn code_is_taken(network_state: &NetworkState, code: &String) -> (taken: bool)
    ensures
        taken == used_codes(*network_state).contains(code@),
{
    let n = network_state.used_referral_codes.len();
    let mut i: usize = 0;
    while i < n
        invariant
            n == network_state.used_referral_codes@.len(),
            i <= n,
            forall|j: int| 0 <= j < i ==> used_codes(*network_state)[j] != code@,
        decreases n - i,
    {
        if network_state.used_referral_codes[i] == *code {
            assert(used_codes(*network_state)[i as int] == code@);
            return true;
        }
        i = i + 1;
    }
    false
}

/// Opens the referral account of `user` under `referral_code`. The code must have between
/// `MIN_REFERRAL_CODE_LENGTH` and `MAX_REFERRAL_CODE_LENGTH` bytes of admissible characters
/// (`InvalidReferralCode`) and must not be taken (`ReferralCodeAlreadyExists`). On success the
/// code is recorded as taken, the network counts one more account, and the user is marked as
/// an Explorer with a referral system; on failure nothing changes.
pub fn initialize_referral(
    user_account: &mut UserAccount,
    network_state: &mut NetworkState,
    user: [u8; 32],
    referral_code: &str,
    now: i64,
    bump: u8,
) -> (res: Result<ReferralAccount, FinovaError>)
    requires
        old(network_state).total_referral_accounts < u64::MAX,
    ensures
        !is_valid_code(referral_code) ==> res == Err::<ReferralAccount, FinovaError>(FinovaError::InvalidReferralCode),
        is_valid_code(referral_code) && used_codes(*old(network_state)).contains(referral_code@)
            ==> res == Err::<ReferralAccount, FinovaError>(FinovaError::ReferralCodeAlreadyExists),
        res is Ok <==> (is_valid_code(referral_code) && !used_codes(*old(network_state)).contains(referral_code@)),
        res matches Ok(a) ==> is_fresh_referral(a, user, referral_code@, now, bump),
        res is Ok ==> {
            &&& *final(user_account) == (UserAccount {
                has_referral_system: true,
                referral_tier: ReferralTier::Explorer,
                ..*old(user_account)
            })
            &&& used_codes(*final(network_state)) == used_codes(*old(network_state)).push(referral_code@)
            &&& final(network_state).total_referral_accounts == old(network_state).total_referral_accounts + 1
            &&& final(network_state).total_referral_connections == old(network_state).total_referral_connections
            &&& final(network_state).total_rp_distributed == old(network_state).total_rp_distributed
            &&& final(network_state).total_rewards_distributed == old(network_state).total_rewards_distributed
        },
        res is Err ==> *final(user_account) == *old(user_account) && used_codes(*final(network_state))
            == used_codes(*old(network_state)) && final(network_state).total_referral_accounts
            == old(network_state).total_referral_accounts && final(network_state).total_referral_connections
            == old(network_state).total_referral_connections && final(network_state).total_rp_distributed
            == old(network_state).total_rp_distributed && final(network_state).total_rewards_distributed
            == old(network_state).total_rewards_distributed,
{
    if !(referral_code.len() >= MIN_REFERRAL_CODE_LENGTH && referral_code.len() <= MAX_REFERRAL_CODE_LENGTH) {
        return Err(FinovaError::InvalidReferralCode);
    }
    if !is_valid_referral_code(referral_code) {
        return Err(FinovaError::InvalidReferralCode);
    }
    let code: String = referral_code.to_owned();
    if code_is_taken(network_state, &code) {
        return Err(FinovaError::ReferralCodeAlreadyExists);
    }
    let account = ReferralAccount {
        owner: user,
        referral_code: referral_code.to_owned(),
        total_referrals: 0,
        active_referrals: 0,
        total_rp: 0,
        claimable_rewards: 0,
        referrer: None,
        tier: ReferralTier::Explorer,
        network_size: 0,
        network_quality_score: FULL_QUALITY_SCORE,
        last_activity: now,
        created_at: now,
        direct_referrals: Vec::new(),
        level_2_referrals: Vec::new(),
        level_3_referrals: Vec::new(),
        monthly_stats: ReferralMonthlyStats { new_referrals: 0, rp_earned: 0 },
        lifetime_stats: ReferralLifetimeStats { total_referrals: 0, total_rp_earned: 0, total_rewards_claimed: 0 },
        regression_factor: NO_REGRESSION,
        bump,
    };
    user_account.has_referral_system = true;
    user_account.referral_tier = ReferralTier::Explorer;
    let ghost before = network_state.used_referral_codes@;
    network_state.used_referral_codes.push(code);
    network_state.total_referral_accounts = network_state.total_referral_accounts + 1;
    proof {
        assert(used_codes(*network_state) =~= used_codes(*old(network_state)).push(referral_code@));
    }
    Ok(account)
}

/// The outcome of the checks of a registration.
pub open spec fn registration_check(
    referral_account: ReferralAccount,
    referrer_account: ReferralAccount,
    referee: [u8; 32],
    referrer: [u8; 32],
    referrer_code: Seq<char>,
) -> Result<(), FinovaError> {
    if referrer_account.referral_code@ != referrer_code {
        Err(FinovaError::InvalidReferralCode)
    } else if referee == referrer {
        Err(FinovaError::CannotReferSelf)
    } else if referral_account.referrer is Some {
        Err(FinovaError::AlreadyReferred)
    } else if referrer_account.direct_referrals@.len() >= spec_max_referrals(referrer_account.tier) {
        Err(FinovaError::ReferralCapacityExceeded)
    } else {
        Ok(())
    }
}

/// Runs the checks of a registration in order: the code must be the referrer's, a user cannot
/// refer themselves, a user is referred once, and the referrer must have room.
pub fn check_registration(
    referral_account: &ReferralAccount,
    referrer_account: &ReferralAccount,
    referee: &[u8; 32],
    referrer: &[u8; 32],
    referrer_code: &str,
) -> (res: Result<(), FinovaError>)
    ensures
        res == registration_check(*referral_account, *referrer_account, *referee, *referrer, referrer_code@),
{
    let code: String = referrer_code.to_owned();
    if !(referrer_account.referral_code == code) {
        return Err(FinovaError::InvalidReferralCode);
    }
    if bytes32_eq(referee, referrer) {
        return Err(FinovaError::CannotReferSelf);
    }
    if referral_account.referrer.is_some() {
        return Err(FinovaError::AlreadyReferred);
    }
    let max_referrals = get_max_referrals_for_tier(referrer_account.tier);
    if referrer_account.direct_referrals.len() >= max_referrals {
        return Err(FinovaError::ReferralCapacityExceeded);
    }
    Ok(())
}

/// Whether the counters of a referrer can take one more referral worth `rp` points.
pub open spec fn credit_fits(a: ReferralAccount, rp: int) -> bool {
    &&& a.total_referrals < u32::MAX
    &&& a.active_referrals < u32::MAX
    &&& a.network_size < u32::MAX
    &&& a.total_rp + rp <= u64::MAX
    &&& a.claimable_rewards + rp <= u64::MAX
    &&& a.monthly_stats.new_referrals < u32::MAX
    &&& a.monthly_stats.rp_earned + rp <= u64::MAX
    &&& a.lifetime_stats.total_referrals < u64::MAX
    &&& a.lifetime_stats.total_rp_earned + rp <= u64::MAX
}

/// A referrer after one more referral `info` worth `rp` points, before any tier change.
pub open spec fn credited(old: ReferralAccount, new: ReferralAccount, info: ReferralInfo, rp: int) -> bool {
    &&& new.owner == old.owner
    &&& new.referral_code@ == old.referral_code@
    &&& new.referrer == old.referrer
    &&& new.direct_referrals@ == old.direct_referrals@.push(info)
    &&& new.level_2_referrals@ == old.level_2_referrals@
    &&& new.level_3_referrals@ == old.level_3_referrals@
    &&& new.total_referrals == old.total_referrals + 1
    &&& new.active_referrals == old.active_referrals + 1
    &&& new.network_size == old.network_size + 1
    &&& new.total_rp == old.total_rp + rp
    &&& new.claimable_rewards == old.claimable_rewards + rp
    &&& new.monthly_stats.new_referrals == old.monthly_stats.new_referrals + 1
    &&& new.monthly_stats.rp_earned == old.monthly_stats.rp_earned + rp
    &&& new.lifetime_stats.total_referrals == old.lifetime_stats.total_referrals + 1
    &&& new.lifetime_stats.total_rp_earned == old.lifetime_stats.total_rp_earned + rp
    &&& new.lifetime_stats.total_rewards_claimed == old.lifetime_stats.total_rewards_claimed
    &&& new.last_activity == old.last_activity
    &&& new.created_at == old.created_at
    &&& new.regression_factor == old.regression_factor
    &&& new.bump == old.bump
}

/// Adds referral `info` worth `rp` points to the referrer's counters.
pub fn credit_referrer(referrer_account: &mut ReferralAccount, info: ReferralInfo, rp: u64)
    requires
        credit_fits(*old(referrer_account), rp as int),
    ensures
        credited(*old(referrer_account), *final(referrer_account), info, rp as int),
        final(referrer_account).tier == old(referrer_account).tier,
        final(referrer_account).network_quality_score == old(referrer_account).network_quality_score,
{
    referrer_account.direct_referrals.push(info);
    referrer_account.total_referrals = referrer_account.total_referrals + 1;
    referrer_account.active_referrals = referrer_account.active_referrals + 1;
    referrer_account.network_size = referrer_account.network_size + 1;
    referrer_account.total_rp = referrer_account.total_rp + rp;
    referrer_account.claimable_rewards = referrer_account.claimable_rewards + rp;
    referrer_account.monthly_stats.new_referrals = referrer_account.monthly_stats.new_referrals + 1;
    referrer_account.monthly_stats.rp_earned = referrer_account.monthly_stats.rp_earned + rp;
    referrer_account.lifetime_stats.total_referrals = referrer_account.lifetime_stats.total_referrals + 1;
    referrer_account.lifetime_stats.total_rp_earned = referrer_account.lifetime_stats.total_rp_earned + rp;
}

/// The tier after a recomputation: the earned tier if it is higher, else the current one.
pub open spec fn raised_tier(current: ReferralTier, total_rp: u64) -> ReferralTier {
    if referral_tier_rank(spec_referral_tier(total_rp)) > referral_tier_rank(current) {
        spec_referral_tier(total_rp)
    } else {
        current
    }
}

/// Whether a registration can update every counter without overflow.
pub open spec fn registration_fits(
    referee_account: UserAccount,
    referrer_account: ReferralAccount,
    network_state: NetworkState,
    now: i64,
) -> bool {
    let rp = spec_initial_rp(referee_account.kyc_verified, referee_account.xp_level);
    &&& credit_fits(referrer_account, rp)
    &&& network_state.total_referral_connections < u64::MAX
    &&& network_state.total_rp_distributed + rp <= u64::MAX
    &&& activity_age_fits(referrer_account.last_activity, now)
}

/// Registers `referee` as referred by `referrer` under the referrer's code. After the checks
/// of `registration_check`, the referee's account names the referrer, the referrer gains the
/// referee as an active direct referral with the initial RP (claimable too), its tier rises if
/// the RP earn a higher one (on both of the referrer's accounts), the network counts the
/// connection and the RP, and the referrer's quality score is recomputed at `now`. Returns the
/// RP awarded. On failure nothing changes.
pub fn register_referral(
    referral_account: &mut ReferralAccount,
    referee_account: &UserAccount,
    referrer_account: &mut ReferralAccount,
    referrer_user_account: &mut UserAccount,
    network_state: &mut NetworkState,
    referee: [u8; 32],
    referrer: [u8; 32],
    referrer_code: &str,
    now: i64,
) -> (res: Result<u64, FinovaError>)
    requires
        registration_check(*old(referral_account), *old(referrer_account), referee, referrer, referrer_code@) is Ok
            ==> registration_fits(*referee_account, *old(referrer_account), *old(network_state), now),
    ensures
        ({
            let check = registration_check(*old(referral_account), *old(referrer_account), referee, referrer, referrer_code@);
            let rp = spec_initial_rp(referee_account.kyc_verified, referee_account.xp_level);
            let info = ReferralInfo {
                user: referee,
                joined_at: now,
                total_xp_contributed: 0,
                total_mining_contributed: 0,
                last_activity: now,
                is_active: true,
                kyc_verified: referee_account.kyc_verified,
            };
            &&& check is Err ==> res == Err::<u64, FinovaError>(check->Err_0)
            &&& check is Err ==> {
                &&& *final(referral_account) == *old(referral_account)
                &&& *final(referrer_account) == *old(referrer_account)
                &&& *final(referrer_user_account) == *old(referrer_user_account)
                &&& *final(network_state) == *old(network_state)
            }
            &&& check is Ok ==> {
                &&& res == Ok::<u64, FinovaError>(rp as u64)
                &&& final(referral_account).referrer == Some(referrer)
                &&& final(referral_account).total_rp == old(referral_account).total_rp
                &&& final(referral_account).direct_referrals@ == old(referral_account).direct_referrals@
                &&& credited(*old(referrer_account), *final(referrer_account), info, rp)
                &&& final(referrer_account).tier == raised_tier(old(referrer_account).tier, final(referrer_account).total_rp)
                &&& final(referrer_account).network_quality_score == account_quality(*final(referrer_account), now)
                &&& *final(referrer_user_account) == (UserAccount {
                    referral_tier: if final(referrer_account).tier != old(referrer_account).tier {
                        final(referrer_account).tier
                    } else {
                        old(referrer_user_account).referral_tier
                    },
                    ..*old(referrer_user_account)
                })
                &&& final(network_state).total_referral_connections == old(network_state).total_referral_connections + 1
                &&& final(network_state).total_rp_distributed == old(network_state).total_rp_distributed + rp
                &&& used_codes(*final(network_state)) == used_codes(*old(network_state))
                &&& final(network_state).total_referral_accounts == old(network_state).total_referral_accounts
                &&& final(network_state).total_rewards_distributed == old(network_state).total_rewards_distributed
            }
        }),
        referral_tier_rank(final(referrer_account).tier) >= referral_tier_rank(old(referrer_account).tier),
{
    match check_registration(referral_account, referrer_account, &referee, &referrer, referrer_code) {
        Err(e) => return Err(e),
        Ok(()) => {},
    }
    referral_account.referrer = Some(referrer);
    let info = ReferralInfo {
        user: referee,
        joined_at: now,
        total_xp_contributed: 0,
        total_mining_contributed: 0,
        last_activity: now,
        is_active: true,
        kyc_verified: referee_account.kyc_verified,
    };
    let initial_rp = calculate_initial_referral_rp(referee_account);
    credit_referrer(referrer_account, info, initial_rp);
    let new_tier = calculate_referral_tier(referrer_account.total_rp, referrer_account.active_referrals);
    if referral_tier_index(new_tier) > referral_tier_index(referrer_account.tier) {
        referrer_account.tier = new_tier;
        referrer_user_account.referral_tier = new_tier;
    }
    network_state.total_referral_connections = network_state.total_referral_connections + 1;
    network_state.total_rp_distributed = network_state.total_rp_distributed + initial_rp;
    let quality_score = calculate_network_quality_score(referrer_account, now);
    referrer_account.network_quality_score = quality_score;
    Ok(initial_rp)
}

/// Credits the RP that a referred user's activity earns. A user without a referrer earns none;
/// otherwise the RP are those of `spec_xp_rp` and `spec_mining_rp`, and when there are any the
/// user's last activity moves to `now` and the network counts them. Returns the RP.
pub fn update_referral_rewards(
    referral_account: &mut ReferralAccount,
    user_account: &UserAccount,
    network_state: &mut NetworkState,
    xp_gained: u64,
    mining_amount: u64,
    now: i64,
) -> (total_rp: u64)
    requires
        old(referral_account).referrer is Some ==> {
            &&& rp_fits(xp_gained, user_account.xp_level, mining_amount)
            &&& spec_xp_rp(xp_gained, user_account.xp_level) + spec_mining_rp(mining_amount, user_account.mining_rate)
                + old(network_state).total_rp_distributed <= u64::MAX
        },
    ensures
        total_rp == (if old(referral_account).referrer is Some {
            spec_xp_rp(xp_gained, user_account.xp_level) + spec_mining_rp(mining_amount, user_account.mining_rate)
        } else {
            0
        }),
        final(referral_account).last_activity == (if total_rp > 0 { now } else { old(referral_account).last_activity }),
        final(referral_account).total_rp == old(referral_account).total_rp,
        final(referral_account).claimable_rewards == old(referral_account).claimable_rewards,
        final(referral_account).referrer == old(referral_account).referrer,
        final(network_state).total_rp_distributed == old(network_state).total_rp_distributed + total_rp,
        final(network_state).total_referral_connections == old(network_state).total_referral_connections,
        final(network_state).total_rewards_distributed == old(network_state).total_rewards_distributed,
        used_codes(*final(network_state)) == used_codes(*old(network_state)),
{
    if referral_account.referrer.is_some() {
        let xp_rp = calculate_xp_referral_rp(xp_gained, user_account.xp_level);
        let mining_rp = calculate_mining_referral_rp(mining_amount, user_account.mining_rate);
        let total_rp = xp_rp + mining_rp;
        if total_rp > 0 {
            referral_account.last_activity = now;
            network_state.total_rp_distributed = network_state.total_rp_distributed + total_rp;
        }
        total_rp
    } else {
        0
    }
}

/// The amount a claim pays: the claimable RP scaled by the tier multiplier and then by the
/// regression factor, both in thousandths.
pub open spec fn spec_claim_amount(a: ReferralAccount) -> int {
    (a.claimable_rewards * spec_tier_multiplier(a.tier) / 1000) * a.regression_factor / 1000
}

/// Whether a claim of `a` can be computed and recorded without overflow.
pub open spec fn claim_fits(a: ReferralAccount, user: UserAccount, network: NetworkState) -> bool {
    &&& a.claimable_rewards * spec_tier_multiplier(a.tier) <= u64::MAX
    &&& (a.claimable_rewards * spec_tier_multiplier(a.tier) / 1000) * a.regression_factor <= u64::MAX
    &&& a.lifetime_stats.total_rewards_claimed + spec_claim_amount(a) <= u64::MAX
    &&& user.total_rewards_claimed + spec_claim_amount(a) <= u64::MAX
    &&& network.total_rewards_distributed + spec_claim_amount(a) <= u64::MAX
}

/// Claims the referral rewards: `NoRewardsToClaim` when nothing is claimable,
/// `InsufficientRewards` when scaling leaves nothing; otherwise the claimable RP are cleared and
/// the amount of `spec_claim_amount` is recorded as claimed by the user and distributed by the
/// network, and returned to be paid from the treasury. On failure nothing changes.
pub fn claim_referral_rewards(
    referral_account: &mut ReferralAccount,
    user_account: &mut UserAccount,
    network_state: &mut NetworkState,
) -> (res: Result<u64, FinovaError>)
    requires
        old(referral_account).claimable_rewards > 0 ==> claim_fits(*old(referral_account), *old(user_account), *old(network_state)),
    ensures
        old(referral_account).claimable_rewards == 0 ==> res == Err::<u64, FinovaError>(FinovaError::NoRewardsToClaim),
        old(referral_account).claimable_rewards > 0 && spec_claim_amount(*old(referral_account)) == 0
            ==> res == Err::<u64, FinovaError>(FinovaError::InsufficientRewards),
        old(referral_account).claimable_rewards > 0 && spec_claim_amount(*old(referral_account)) > 0
            ==> res == Ok::<u64, FinovaError>(spec_claim_amount(*old(referral_account)) as u64),
        res matches Ok(amount) ==> {
            &&& final(referral_account).claimable_rewards == 0
            &&& final(referral_account).lifetime_stats.total_rewards_claimed
                == old(referral_account).lifetime_stats.total_rewards_claimed + amount
            &&& final(referral_account).total_rp == old(referral_account).total_rp
            &&& final(referral_account).tier == old(referral_account).tier
            &&& *final(user_account) == (UserAccount {
                total_rewards_claimed: (old(user_account).total_rewards_claimed + amount) as u64,
                ..*old(user_account)
            })
            &&& final(network_state).total_rewards_distributed == old(network_state).total_rewards_distributed + amount
            &&& final(network_state).total_rp_distributed == old(network_state).total_rp_distributed
        },
        res is Err ==> {
            &&& final(referral_account).claimable_rewards == old(referral_account).claimable_rewards
            &&& final(referral_account).lifetime_stats == old(referral_account).lifetime_stats
            &&& *final(user_account) == *old(user_account)
            &&& final(network_state).total_rewards_distributed == old(network_state).total_rewards_distributed
        },
{
    if referral_account.claimable_rewards == 0 {
        return Err(FinovaError::NoRewardsToClaim);
    }
    let rewards_to_claim = referral_account.claimable_rewards;
    let tier_multiplier = get_referral_tier_multiplier(referral_account.tier);
    let final_rewards = (rewards_to_claim * tier_multiplier) / 1000;
    let regressed_rewards = (final_rewards * referral_account.regression_factor) / 1000;
    if regressed_rewards == 0 {
        return Err(FinovaError::InsufficientRewards);
    }
    referral_account.claimable_rewards = 0;
    referral_account.lifetime_stats.total_rewards_claimed = referral_account.lifetime_stats.total_rewards_claimed
        + regressed_rewards;
    user_account.total_rewards_claimed = user_account.total_rewards_claimed + regressed_rewards;
    network_state.total_rewards_distributed = network_state.total_rewards_distributed + regressed_rewards;
    Ok(regressed_rewards)
}

/// Raises the tier to the one the RP earn, with its upgrade bonus (as RP and as claimable
/// rewards), on both of the user's accounts; `TierUpgradeNotAvailable`, with nothing changed,
/// when the earned tier is not higher than the current one.
pub fn upgrade_referral_tier(referral_account: &mut ReferralAccount, user_account: &mut UserAccount) -> (res: Result<
    (),
    FinovaError,
>)
    requires
        old(referral_account).total_rp + 15000 <= u64::MAX,
        old(referral_account).claimable_rewards + 15000 <= u64::MAX,
    ensures
        ({
            let new_tier = spec_referral_tier(old(referral_account).total_rp);
            let bonus = spec_tier_upgrade_bonus(new_tier);
            &&& res is Ok <==> referral_tier_rank(new_tier) > referral_tier_rank(old(referral_account).tier)
            &&& res is Err ==> res == Err::<(), FinovaError>(FinovaError::TierUpgradeNotAvailable)
            &&& res is Ok ==> {
                &&& final(referral_account).tier == new_tier
                &&& final(referral_account).total_rp == old(referral_account).total_rp + bonus
                &&& final(referral_account).claimable_rewards == old(referral_account).claimable_rewards + bonus
                &&& *final(user_account) == (UserAccount { referral_tier: new_tier, ..*old(user_account) })
            }
            &&& res is Err ==> {
                &&& final(referral_account).tier == old(referral_account).tier
                &&& final(referral_account).total_rp == old(referral_account).total_rp
                &&& final(referral_account).claimable_rewards == old(referral_account).claimable_rewards
                &&& *final(user_account) == *old(user_account)
            }
        }),
{
    let current_tier = referral_account.tier;
    let new_tier = calculate_referral_tier(referral_account.total_rp, referral_account.active_referrals);
    if !(referral_tier_index(new_tier) > referral_tier_index(current_tier)) {
        return Err(FinovaError::TierUpgradeNotAvailable);
    }
    referral_account.tier = new_tier;
    user_account.referral_tier = new_tier;
    let upgrade_bonus = get_tier_upgrade_bonus(new_tier);
    referral_account.total_rp = referral_account.total_rp + upgrade_bonus;
    referral_account.claimable_rewards = referral_account.claimable_rewards + upgrade_bonus;
    Ok(())
}

/// Recomputes the quality score of a referral network at `now` and returns it. The regression
/// factor that follows from it is a floating-point computation and is left to the caller.
pub fn calculate_network_quality(referral_account: &mut ReferralAccount, now: i64) -> (score: u64)
    requires
        activity_age_fits(old(referral_account).last_activity, now),
    ensures
        score == account_quality(*old(referral_account), now),
        final(referral_account).network_quality_score == score,
        final(referral_account).regression_factor == old(referral_account).regression_factor,
        final(referral_account).total_rp == old(referral_account).total_rp,
        final(referral_account).claimable_rewards == old(referral_account).claimable_rewards,
        final(referral_account).tier == old(referral_account).tier,
{
    let quality_score = calculate_network_quality_score(referral_account, now);
    referral_account.network_quality_score = quality_score;
    quality_score
}

/// The earned tier never falls as referral points grow.
pub proof fn law_referral_tier_monotone(a: u64, b: u64)
    requires
        a <= b,
    ensures
        referral_tier_rank(spec_referral_tier(a)) <= referral_tier_rank(spec_referral_tier(b)),
{
}

/// Higher referral tiers pay more: the claim multiplier rises strictly with the tier, from 1.0x
/// for an Explorer (1 000 thousandths) to 3.0x for an Ambassador (3 000), so for the same
/// claimable points and regression factor a higher tier never claims less, and an Ambassador
/// claims three times what an Explorer does.
pub proof fn law_higher_tier_claims_more(a1: ReferralAccount, a2: ReferralAccount)
    requires
        a1.claimable_rewards == a2.claimable_rewards,
        a1.regression_factor == a2.regression_factor,
        referral_tier_rank(a1.tier) <= referral_tier_rank(a2.tier),
    ensures
        referral_tier_rank(a1.tier) < referral_tier_rank(a2.tier) ==> spec_tier_multiplier(a1.tier) < spec_tier_multiplier(a2.tier),
        spec_tier_multiplier(ReferralTier::Explorer) == 1000,
        spec_tier_multiplier(ReferralTier::Ambassador) == 3000,
        spec_claim_amount(a1) <= spec_claim_amount(a2),
        a1.tier == ReferralTier::Explorer && a2.tier == ReferralTier::Ambassador && a1.regression_factor == 1000
            ==> spec_claim_amount(a2) == 3 * spec_claim_amount(a1),
{
    let c = a1.claimable_rewards as int;
    let g = a1.regression_factor as int;
    let m1 = spec_tier_multiplier(a1.tier) as int;
    let m2 = spec_tier_multiplier(a2.tier) as int;
    assert(m1 <= m2);
    assert(c * m1 / 1000 <= c * m2 / 1000) by (nonlinear_arith)
        requires
            c >= 0,
            m1 <= m2,
    ;
    assert((c * m1 / 1000) * g / 1000 <= (c * m2 / 1000) * g / 1000) by (nonlinear_arith)
        requires
            c >= 0,
            g >= 0,
            m1 >= 0,
            c * m1 / 1000 <= c * m2 / 1000,
    ;
    if a1.tier == ReferralTier::Explorer && a2.tier == ReferralTier::Ambassador && g == 1000 {
        assert(c * 1000 / 1000 == c && c * 3000 / 1000 == 3 * c) by (nonlinear_arith)
            requires
                c >= 0,
        ;
        assert((3 * c) * 1000 / 1000 == 3 * c && c * 1000 / 1000 == c) by (nonlinear_arith)
            requires
                c >= 0,
        ;
    }
}

/// More referral points never mean a lower tier: Explorer up to 999 RP, Connector from 1 000,
/// Influencer from 5 000, Leader from 15 000 and Ambassador from 50 000. A higher tier admits
/// more direct referrals (10 for an Explorer, 25, 50, 100, and no limit for an Ambassador) and
/// grants a larger bonus on reaching it (none for Explorer, 500, 1 500, 5 000 and 15 000 RP).
pub proof fn law_tiers_follow_points(rp1: u64, rp2: u64, t1: ReferralTier, t2: ReferralTier)
    requires
        rp1 <= rp2,
    ensures
        referral_tier_rank(spec_referral_tier(rp1)) <= referral_tier_rank(spec_referral_tier(rp2)),
        spec_referral_tier(999) == ReferralTier::Explorer && spec_referral_tier(1000) == ReferralTier::Connector,
        spec_referral_tier(4999) == ReferralTier::Connector && spec_referral_tier(5000) == ReferralTier::Influencer,
        spec_referral_tier(14999) == ReferralTier::Influencer && spec_referral_tier(15000) == ReferralTier::Leader,
        spec_referral_tier(49999) == ReferralTier::Leader && spec_referral_tier(50000) == ReferralTier::Ambassador,
        referral_tier_rank(t1) < referral_tier_rank(t2) ==> spec_max_referrals(t1) < spec_max_referrals(t2)
            && spec_tier_upgrade_bonus(t1) < spec_tier_upgrade_bonus(t2),
        spec_max_referrals(ReferralTier::Explorer) == 10 && spec_max_referrals(ReferralTier::Ambassador) == usize::MAX,
        spec_tier_upgrade_bonus(ReferralTier::Explorer) == 0 && spec_tier_upgrade_bonus(ReferralTier::Ambassador) == 15000,
{
}

/// What a referral brings its referrer: a verified user 50 RP more than an unverified one at
/// the same level (100 against 50 at level 0), and one RP more per ten levels of the user.
/// Activity earns 5% of the XP gained at level 0, one percent more of that per level, and 10%
/// of an amount mined, half as much again for a miner mining at a rate above 50 000.
pub proof fn law_referral_points(level: u32, xp: u64, amount: u64, rate: u64)
    ensures
        spec_initial_rp(true, level) == spec_initial_rp(false, level) + 50,
        spec_initial_rp(false, 0) == 50,
        level + 10 <= u32::MAX ==> spec_initial_rp(false, (level + 10) as u32) == spec_initial_rp(false, level) + 1,
        spec_xp_rp(xp, 0) == xp * 5 / 100,
        spec_xp_rp(xp, level) >= spec_xp_rp(xp, 0),
        spec_mining_rp(amount, 50000) == amount * 10 / 100,
        rate > 50000 ==> spec_mining_rp(amount, rate) == (amount * 10 / 100) * 3 / 2,
{
    let b = xp * 5 / 100;
    assert(b * 1000 / 1000 == b) by (nonlinear_arith)
        requires
            b >= 0,
    ;
    assert(b * (1000 + level * 10) / 1000 >= b) by (nonlinear_arith)
        requires
            b >= 0,
            level >= 0,
    ;
    let c = amount * 10 / 100;
    assert(c * 1000 / 1000 == c && c * 1500 / 1000 == c * 3 / 2) by (nonlinear_arith)
        requires
            c >= 0,
    ;
}

} // verus!
