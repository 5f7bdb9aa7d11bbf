//! Integrated rewards: eligibility and bookkeeping of mining rewards, activity checks and
//! base XP, referral bonuses, claims, and special-card boosts. The floating-point factors of
//! the reward formulas are computed by the caller and handed in as amounts.
use vstd::prelude::*;

use crate::core_constants::{
    PHASE_1_USER_THRESHOLD, PHASE_2_USER_THRESHOLD, PHASE_3_USER_THRESHOLD, XP_DAILY_LOGIN, XP_MEANINGFUL_COMMENT,
    XP_ORIGINAL_POST, XP_SHARE_REPOST, XP_VIDEO_POST, XP_VIRAL_CONTENT,
};
use crate::errors::FinovaError;

pub use crate::core_state::{EngagementMetrics, ReferralTier};

verus! {

/// Seconds between two reward calculations.
pub const MIN_REWARD_INTERVAL: i64 = 3600;
/// Seconds between two claims.
pub const MIN_CLAIM_INTERVAL: i64 = 86400;
/// Most activities rewarded per day.
pub const MAX_DAILY_ACTIVITIES: u64 = 100;
/// Most boosts held at once.
pub const MAX_ACTIVE_BOOSTS: usize = 5;
/// Views that viral content needs.
pub const VIRAL_VIEWS: u64 = 1000;

/// Phases of the mining schedule, by number of users.
#[derive(Clone, Copy, Debug, PartialEq, Eq, Structural)]
pub enum MiningPhase {
    Finizen,
    Growth,
    Maturity,
    Stability,
}

/// Platforms an activity can happen on.
#[derive(Clone, Copy, Debug, PartialEq, Eq, Structural)]
pub enum Platform {
    TikTok,
    Instagram,
    YouTube,
    Facebook,
    TwitterX,
    App,
}

/// Kinds of rewarded activity.
#[derive(Clone, Copy, Debug, PartialEq, Eq, Structural)]
pub enum ActivityType {
    OriginalPost,
    QualityComment,
    VideoContent,
    ViralContent,
    DailyLogin,
    ShareRepost,
}

/// Special cards that boost rewards.
#[derive(Clone, Copy, Debug, PartialEq, Eq, Structural)]
pub enum SpecialCardType {
    DoubleMining,
    TripleMining,
    MiningFrenzy,
    EternalMiner,
    XPDouble,
    StreakSaver,
    LevelRush,
    XPMagnet,
    ReferralBoost,
    NetworkAmplifier,
    AmbassadorPass,
    NetworkKing,
}

/// An activity submitted for rewards.
#[derive(Clone, Copy, Debug)]
pub struct ActivityData {
    pub activity_type: ActivityType,
    pub platform: Platform,
    pub engagement_metrics: EngagementMetrics,
    pub is_original: bool,
    pub content_length: Option<u32>,
}

/// Whether an activity is admissible: viral content needs `VIRAL_VIEWS` views and video
/// content a positive length.
pub open spec fn spec_activity_valid(a: ActivityData) -> bool {
    match a.activity_type {
        ActivityType::ViralContent => a.engagement_metrics.views >= VIRAL_VIEWS,
        ActivityType::VideoContent => match a.content_length {
            Some(l) => l > 0,
            None => false,
        },
        _ => true,
    }
}

impl ActivityData {
    /// Whether the activity is admissible.
    pub fn is_valid(&self) -> (r: bool)
        ensures
            r == spec_activity_valid(*self),
    {
        match self.activity_type {
            ActivityType::ViralContent => self.engagement_metrics.views >= VIRAL_VIEWS,
            ActivityType::VideoContent => match self.content_length {
                Some(l) => l > 0,
                None => false,
            },
            _ => true,
        }
    }
}

/// A rewarded activity.
#[derive(Clone, Copy, Debug)]
pub struct ActivityRecord {
    pub activity_type: ActivityType,
    pub platform: Platform,
    pub timestamp: i64,
    pub xp_earned: u64,
    pub mining_bonus: u64,
    /// Quality multiplier, in basis points.
    pub quality_score_bps: u32,
    pub engagement_metrics: EngagementMetrics,
    pub is_original: bool,
}

/// A special-card boost in force.
#[derive(Clone, Copy, Debug)]
pub struct SpecialCardBoost {
    pub card_type: SpecialCardType,
    /// Reward multiplier, in basis points.
    pub multiplier_bps: u32,
    pub start_time: i64,
    pub end_time: i64,
    pub uses_remaining: Option<u32>,
}

/// Whether a boost is in force at `t`: within its window and with uses left, if counted.
pub open spec fn spec_boost_active(b: SpecialCardBoost, t: i64) -> bool {
    &&& b.start_time <= t <= b.end_time
    &&& match b.uses_remaining {
        Some(u) => u > 0,
        None => true,
    }
}

impl SpecialCardBoost {
    /// Whether the boost is in force at `current_time`.
    pub fn is_active(&self, current_time: i64) -> (r: bool)
        ensures
            r == spec_boost_active(*self, current_time),
    {
        current_time >= self.start_time && current_time <= self.end_time && match self.uses_remaining {
            Some(u) => u > 0,
            None => true,
        }
    }

    /// Uses the boost once: a boost with counted uses needs one left and spends it; an
    /// unlimited boost always applies. Returns whether it applied.
    pub fn apply_boost(&mut self) -> (applied: bool)
        ensures
            applied == match old(self).uses_remaining {
                Some(u) => u > 0,
                None => true,
            },
            final(self).uses_remaining == match old(self).uses_remaining {
                Some(u) => if u > 0 { Some((u - 1) as u32) } else { Some(0u32) },
                None => None,
            },
            final(self).card_type == old(self).card_type,
            final(self).multiplier_bps == old(self).multiplier_bps,
            final(self).start_time == old(self).start_time,
            final(self).end_time == old(self).end_time,
    {
        match self.uses_remaining {
            Some(u) => {
                if u > 0 {
                    self.uses_remaining = Some(u - 1);
                    true
                } else {
                    false
                }
            },
            None => true,
        }
    }
}

/// The reward-relevant part of a user's profile.
#[derive(Clone, Copy, Debug)]
pub struct RewardsUser {
    pub is_verified: bool,
    pub is_kyc_verified: bool,
    pub last_reward_calculation: i64,
    pub total_rewards_earned: u64,
    pub total_claimed: u64,
    pub last_claim_time: i64,
    pub total_holdings: u64,
    pub referrer: Option<[u8; 32]>,
}

/// A user's reward ledger: earnings, pending and claimed amounts, recent activities and the
/// boosts in force.
#[derive(Clone, Debug)]
pub struct RewardsLedger {
    pub total_earned: u64,
    pub pending_rewards: u64,
    pub last_calculation: i64,
    pub calculation_count: u64,
    pub total_claimed: u64,
    pub last_claim_time: i64,
    pub claim_count: u64,
    pub referral_earnings: u64,
    pub recent_activities: Vec<ActivityRecord>,
    pub active_boosts: Vec<SpecialCardBoost>,
}

/// A user's mining totals.
#[derive(Clone, Copy, Debug)]
pub struct MiningTotals {
    pub total_mined: u64,
    pub last_mining_time: i64,
}

/// Network-wide reward statistics.
#[derive(Clone, Copy, Debug)]
pub struct RewardsGlobalState {
    pub total_users: u64,
    pub total_rewards_distributed: u64,
    pub total_active_miners: u64,
}

/// A referrer's earnings from its network.
#[derive(Clone, Copy, Debug)]
pub struct ReferralNetwork {
    pub tier: ReferralTier,
    pub total_referrals: u32,
    pub active_referrals: u32,
    pub total_rp: u64,
    pub total_earnings: u64,
    pub last_earning_time: i64,
    pub contribution_to_referrer: u64,
}

/// The phase of the mining schedule for a number of users.
pub open spec fn spec_mining_phase_of(total_users: u64) -> MiningPhase {
    if total_users <= PHASE_1_USER_THRESHOLD {
        MiningPhase::Finizen
    } else if total_users <= PHASE_2_USER_THRESHOLD {
        MiningPhase::Growth
    } else if total_users <= PHASE_3_USER_THRESHOLD {
        MiningPhase::Maturity
    } else {
        MiningPhase::Stability
    }
}

/// The phase of the mining schedule for a number of users.
pub fn determine_mining_phase(total_users: u64) -> (phase: MiningPhase)
    ensures
        phase == spec_mining_phase_of(total_users),
{
    if total_users <= PHASE_1_USER_THRESHOLD {
        MiningPhase::Finizen
    } else if total_users <= PHASE_2_USER_THRESHOLD {
        MiningPhase::Growth
    } else if total_users <= PHASE_3_USER_THRESHOLD {
        MiningPhase::Maturity
    } else {
        MiningPhase::Stability
    }
}

/// The XP an activity is worth before multipliers.
pub open spec fn spec_activity_base_xp(t: ActivityType) -> u64 {
    match t {
        ActivityType::OriginalPost => XP_ORIGINAL_POST,
        ActivityType::QualityComment => XP_MEANINGFUL_COMMENT,
        ActivityType::VideoContent => XP_VIDEO_POST,
        ActivityType::ViralContent => XP_VIRAL_CONTENT,
        ActivityType::DailyLogin => XP_DAILY_LOGIN,
        ActivityType::ShareRepost => XP_SHARE_REPOST,
    }
}

/// The XP an activity is worth before multipliers.
pub fn calculate_base_xp(activity: &ActivityData) -> (xp: u64)
    ensures
        xp == spec_activity_base_xp(activity.activity_type),
{
    match activity.activity_type {
        ActivityType::OriginalPost => XP_ORIGINAL_POST,
        ActivityType::QualityComment => XP_MEANINGFUL_COMMENT,
        ActivityType::VideoContent => XP_VIDEO_POST,
        ActivityType::ViralContent => XP_VIRAL_CONTENT,
        ActivityType::DailyLogin => XP_DAILY_LOGIN,
        ActivityType::ShareRepost => XP_SHARE_REPOST,
    }
}

/// The streak bonus, in tenths: 1.0x up to 2 days, 1.2x from 3, 1.5x from 7, 2.0x from 14,
/// 2.5x from 30 and 3.0x from 60.
pub open spec fn spec_streak_bonus_tenths(streak_days: u32) -> u32 {
    if streak_days <= 2 {
        10
    } else if streak_days <= 6 {
        12
    } else if streak_days <= 13 {
        15
    } else if streak_days <= 29 {
        20
    } else if streak_days <= 59 {
        25
    } else {
        30
    }
}

/// The streak bonus, in tenths.
pub fn calculate_streak_bonus(streak_days: u32) -> (bonus: u32)
    ensures
        bonus == spec_streak_bonus_tenths(streak_days),
{
    if streak_days <= 2 {
        10
    } else if streak_days <= 6 {
        12
    } else if streak_days <= 13 {
        15
    } else if streak_days <= 29 {
        20
    } else if streak_days <= 59 {
        25
    } else {
        30
    }
}

/// The day of a timestamp, divided as Rust divides (toward zero).
pub open spec fn day_of(t: i64) -> int {
    if t >= 0 {
        t / 86400
    } else {
        -((-t) / 86400)
    }
}

/// How many of `records` fall on the day of `now`.
pub open spec fn count_on_day(records: Seq<ActivityRecord>, now: i64) -> nat
    decreases records.len(),
{
    if records.len() == 0 {
        0
    } else {
        count_on_day(records.drop_last(), now) + if day_of(records.last().timestamp) == day_of(now) {
            1nat
        } else {
            0nat
        }
    }
}

/// How many recorded activities fall on the day of `now`.
pub fn get_today_activity_count(ledger: &RewardsLedger, now: i64) -> (count: u64)
    ensures
        count == count_on_day(ledger.recent_activities@, now),
{
    let n = ledger.recent_activities.len();
    let today = now / 86400;
    let mut count: u64 = 0;
    let mut i: usize = 0;
    while i < n
        invariant
            n == ledger.recent_activities@.len(),
            i <= n,
            today == day_of(now),
            count == count_on_day(ledger.recent_activities@.take(i as int), now),
            count <= i,
        decreases n - i,
    {
        proof {
            assert(ledger.recent_activities@.take(i + 1).drop_last() =~= ledger.recent_activities@.take(i as int));
        }
        if ledger.recent_activities[i].timestamp / 86400 == today {
            count = count + 1;
        }
        i = i + 1;
    }
    proof {
        assert(ledger.recent_activities@.take(n as int) =~= ledger.recent_activities@);
    }
    count
}

/// Checks an activity before it is rewarded: it must be admissible (`InvalidActivityData`)
/// and the day's limit must not be reached (`DailyActivityLimitExceeded`).
pub fn check_activity(ledger: &RewardsLedger, activity_data: &ActivityData, now: i64) -> (res: Result<(), FinovaError>)
    ensures
        res == (if !spec_activity_valid(*activity_data) {
            Err(FinovaError::InvalidActivityData)
        } else if count_on_day(ledger.recent_activities@, now) >= MAX_DAILY_ACTIVITIES {
            Err(FinovaError::DailyActivityLimitExceeded)
        } else {
            Ok(())
        }),
{
    if !activity_data.is_valid() {
        return Err(FinovaError::InvalidActivityData);
    }
    let daily_activity_count = get_today_activity_count(ledger, now);
    if daily_activity_count >= MAX_DAILY_ACTIVITIES {
        return Err(FinovaError::DailyActivityLimitExceeded);
    }
    Ok(())
}

/// Checks that a user may have rewards calculated at `now`: the user must be verified
/// (`UserNotVerified`) and the last calculation at least `MIN_REWARD_INTERVAL` ago
/// (`RewardCalculationTooSoon`).
pub fn check_reward_eligibility(user: &RewardsUser, now: i64) -> (res: Result<(), FinovaError>)
    requires
        user.last_reward_calculation + MIN_REWARD_INTERVAL <= i64::MAX,
    ensures
        res == (if !user.is_verified {
            Err(FinovaError::UserNotVerified)
        } else if now < user.last_reward_calculation + MIN_REWARD_INTERVAL {
            Err(FinovaError::RewardCalculationTooSoon)
        } else {
            Ok(())
        }),
{
    if !user.is_verified {
        return Err(FinovaError::UserNotVerified);
    }
    if now < user.last_reward_calculation + MIN_REWARD_INTERVAL {
        return Err(FinovaError::RewardCalculationTooSoon);
    }
    Ok(())
}

/// Whether a reward can be recorded without overflow.
pub open spec fn reward_fits(
    ledger: RewardsLedger,
    mining: MiningTotals,
    user: RewardsUser,
    global: RewardsGlobalState,
    reward: u64,
) -> bool {
    &&& ledger.total_earned + reward <= u64::MAX
    &&& ledger.pending_rewards + reward <= u64::MAX
    &&& ledger.calculation_count < u64::MAX
    &&& mining.total_mined + reward <= u64::MAX
    &&& user.total_rewards_earned + reward <= u64::MAX
    &&& global.total_rewards_distributed + reward <= u64::MAX
    &&& global.total_active_miners < u64::MAX
}

/// Records a calculated reward at `now`: it is earned and pending, mined, earned by the user
/// and distributed by the network; the network counts one more active miner. Returns the
/// reward.
pub fn record_integrated_reward(
    ledger: &mut RewardsLedger,
    mining: &mut MiningTotals,
    user: &mut RewardsUser,
    global: &mut RewardsGlobalState,
    final_reward: u64,
    now: i64,
) -> (recorded: u64)
    requires
        reward_fits(*old(ledger), *old(mining), *old(user), *old(global), final_reward),
    ensures
        recorded == final_reward,
        final(ledger).total_earned == old(ledger).total_earned + final_reward,
        final(ledger).pending_rewards == old(ledger).pending_rewards + final_reward,
        final(ledger).last_calculation == now,
        final(ledger).calculation_count == old(ledger).calculation_count + 1,
        final(ledger).total_claimed == old(ledger).total_claimed,
        final(ledger).recent_activities@ == old(ledger).recent_activities@,
        final(ledger).active_boosts@ == old(ledger).active_boosts@,
        *final(mining) == (MiningTotals { total_mined: (old(mining).total_mined + final_reward) as u64, last_mining_time: now }),
        *final(user) == (RewardsUser {
            last_reward_calculation: now,
            total_rewards_earned: (old(user).total_rewards_earned + final_reward) as u64,
            ..*old(user)
        }),
        *final(global) == (RewardsGlobalState {
            total_rewards_distributed: (old(global).total_rewards_distributed + final_reward) as u64,
            total_active_miners: (old(global).total_active_miners + 1) as u64,
            ..*old(global)
        }),
{
    ledger.total_earned = ledger.total_earned + final_reward;
    ledger.pending_rewards = ledger.pending_rewards + final_reward;
    ledger.last_calculation = now;
    ledger.calculation_count = ledger.calculation_count + 1;
    mining.total_mined = mining.total_mined + final_reward;
    mining.last_mining_time = now;
    user.last_reward_calculation = now;
    user.total_rewards_earned = user.total_rewards_earned + final_reward;
    global.total_rewards_distributed = global.total_rewards_distributed + final_reward;
    global.total_active_miners = global.total_active_miners + 1;
    final_reward
}

/// Records a direct-referral bonus at `now`: it is pending for the referrer and counted as its
/// referral earnings, the network's earnings and the referee's contribution. When the pool
/// cannot pay it now, it is added to the pending rewards a second time. Returns whether the
/// pool pays it now.
pub fn record_l1_bonus(
    referrer_rewards: &mut RewardsLedger,
    referrer_network: &mut ReferralNetwork,
    referee_network: &mut ReferralNetwork,
    final_l1_bonus: u64,
    pool_amount: u64,
    now: i64,
) -> (pay_now: bool)
    requires
        old(referrer_rewards).pending_rewards + 2 * final_l1_bonus <= u64::MAX,
        old(referrer_rewards).referral_earnings + final_l1_bonus <= u64::MAX,
        old(referrer_network).total_earnings + final_l1_bonus <= u64::MAX,
        old(referee_network).contribution_to_referrer + final_l1_bonus <= u64::MAX,
    ensures
        pay_now == (pool_amount >= final_l1_bonus),
        final(referrer_rewards).pending_rewards == old(referrer_rewards).pending_rewards + if pay_now {
            final_l1_bonus as int
        } else {
            2 * final_l1_bonus
        },
        final(referrer_rewards).referral_earnings == old(referrer_rewards).referral_earnings + final_l1_bonus,
        final(referrer_rewards).total_claimed == old(referrer_rewards).total_claimed,
        *final(referrer_network) == (ReferralNetwork {
            total_earnings: (old(referrer_network).total_earnings + final_l1_bonus) as u64,
            last_earning_time: now,
            ..*old(referrer_network)
        }),
        *final(referee_network) == (ReferralNetwork {
            contribution_to_referrer: (old(referee_network).contribution_to_referrer + final_l1_bonus) as u64,
            ..*old(referee_network)
        }),
{
    referrer_rewards.pending_rewards = referrer_rewards.pending_rewards + final_l1_bonus;
    referrer_rewards.referral_earnings = referrer_rewards.referral_earnings + final_l1_bonus;
    referrer_network.total_earnings = referrer_network.total_earnings + final_l1_bonus;
    referrer_network.last_earning_time = now;
    referee_network.contribution_to_referrer = referee_network.contribution_to_referrer + final_l1_bonus;
    if pool_amount >= final_l1_bonus {
        true
    } else {
        referrer_rewards.pending_rewards = referrer_rewards.pending_rewards + final_l1_bonus;
        false
    }
}

/// The outcome of the checks on a claim at `now` from a pool holding `pool_amount`.
pub open spec fn claim_check(ledger: RewardsLedger, pool_amount: u64, now: i64) -> Result<(), FinovaError> {
    if ledger.pending_rewards == 0 {
        Err(FinovaError::NoPendingRewards)
    } else if ledger.pending_rewards > pool_amount {
        Err(FinovaError::InsufficientRewardPool)
    } else if now < ledger.last_claim_time + MIN_CLAIM_INTERVAL {
        Err(FinovaError::ClaimTooSoon)
    } else {
        Ok(())
    }
}

/// Claims the pending rewards at `now`, after the checks of `claim_check`: they are cleared
/// and counted as claimed by the ledger and the user, which both record the claim time.
/// Returns the amount to pay from the pool. On failure nothing changes.
pub fn claim_accumulated_rewards(
    ledger: &mut RewardsLedger,
    user: &mut RewardsUser,
    pool_amount: u64,
    now: i64,
) -> (res: Result<u64, FinovaError>)
    requires
        old(ledger).last_claim_time + MIN_CLAIM_INTERVAL <= i64::MAX,
        old(ledger).total_claimed + old(ledger).pending_rewards <= u64::MAX,
        old(ledger).claim_count < u64::MAX,
        old(user).total_claimed + old(ledger).pending_rewards <= u64::MAX,
    ensures
        claim_check(*old(ledger), pool_amount, now) is Err ==> res == Err::<u64, FinovaError>(
            claim_check(*old(ledger), pool_amount, now)->Err_0,
        ) && final(ledger).pending_rewards == old(ledger).pending_rewards && final(ledger).total_claimed
            == old(ledger).total_claimed && *final(user) == *old(user),
        claim_check(*old(ledger), pool_amount, now) is Ok ==> {
            let amount = old(ledger).pending_rewards;
            &&& res == Ok::<u64, FinovaError>(amount)
            &&& final(ledger).pending_rewards == 0
            &&& final(ledger).total_claimed == old(ledger).total_claimed + amount
            &&& final(ledger).last_claim_time == now
            &&& final(ledger).claim_count == old(ledger).claim_count + 1
            &&& final(ledger).total_earned == old(ledger).total_earned
            &&& *final(user) == (RewardsUser {
                total_claimed: (old(user).total_claimed + amount) as u64,
                last_claim_time: now,
                ..*old(user)
            })
        },
{
    let pending_rewards = ledger.pending_rewards;
    if pending_rewards == 0 {
        return Err(FinovaError::NoPendingRewards);
    }
    if pending_rewards > pool_amount {
        return Err(FinovaError::InsufficientRewardPool);
    }
    if now < ledger.last_claim_time + MIN_CLAIM_INTERVAL {
        return Err(FinovaError::ClaimTooSoon);
    }
    ledger.pending_rewards = 0;
    ledger.total_claimed = ledger.total_claimed + pending_rewards;
    ledger.last_claim_time = now;
    ledger.claim_count = ledger.claim_count + 1;
    user.total_claimed = user.total_claimed + pending_rewards;
    user.last_claim_time = now;
    Ok(pending_rewards)
}

/// The multiplier, in basis points, and the duration, in seconds, of a card's boost.
pub open spec fn spec_card_parameters(card: SpecialCardType) -> (u32, i64) {
    match card {
        SpecialCardType::DoubleMining => (20000, 86400i64),
        SpecialCardType::TripleMining => (30000, 43200i64),
        SpecialCardType::MiningFrenzy => (60000, 14400i64),
        SpecialCardType::EternalMiner => (15000, 2592000i64),
        SpecialCardType::XPDouble => (20000, 86400i64),
        SpecialCardType::StreakSaver => (10000, 604800i64),
        SpecialCardType::LevelRush => (10000, 0i64),
        SpecialCardType::XPMagnet => (40000, 172800i64),
        SpecialCardType::ReferralBoost => (15000, 604800i64),
        SpecialCardType::NetworkAmplifier => (30000, 86400i64),
        SpecialCardType::AmbassadorPass => (20000, 172800i64),
        SpecialCardType::NetworkKing => (100000, 43200i64),
    }
}

/// The multiplier, in basis points, and the duration, in seconds, of a card's boost.
pub fn get_card_boost_parameters(card_type: SpecialCardType) -> (p: (u32, i64))
    ensures
        p == spec_card_parameters(card_type),
{
    let (multiplier, duration_hours): (u32, i64) = match card_type {
        SpecialCardType::DoubleMining => (20000, 24),
        SpecialCardType::TripleMining => (30000, 12),
        SpecialCardType::MiningFrenzy => (60000, 4),
        SpecialCardType::EternalMiner => (15000, 720),
        SpecialCardType::XPDouble => (20000, 24),
        SpecialCardType::StreakSaver => (10000, 168),
        SpecialCardType::LevelRush => (10000, 0),
        SpecialCardType::XPMagnet => (40000, 48),
        SpecialCardType::ReferralBoost => (15000, 168),
        SpecialCardType::NetworkAmplifier => (30000, 24),
        SpecialCardType::AmbassadorPass => (20000, 48),
        SpecialCardType::NetworkKing => (100000, 12),
    };
    (multiplier, duration_hours * 3600)
}

/// The uses of a card's boost: one for the streak saver and the level rush, unlimited
/// otherwise.
pub open spec fn spec_card_uses(card: SpecialCardType) -> Option<u32> {
    match card {
        SpecialCardType::StreakSaver => Some(1u32),
        SpecialCardType::LevelRush => Some(1u32),
        _ => None,
    }
}

/// The uses of a card's boost.
pub fn get_card_uses(card_type: SpecialCardType) -> (uses: Option<u32>)
    ensures
        uses == spec_card_uses(card_type),
{
    match card_type {
        SpecialCardType::StreakSaver => Some(1),
        SpecialCardType::LevelRush => Some(1),
        _ => None,
    }
}

/// Whether a card is burnt on activation: mining frenzy, level rush and network king.
pub open spec fn spec_single_use(card: SpecialCardType) -> bool {
    card == SpecialCardType::MiningFrenzy || card == SpecialCardType::LevelRush || card == SpecialCardType::NetworkKing
}

/// Whether a card is burnt on activation.
pub fn is_single_use_card(card_type: SpecialCardType) -> (r: bool)
    ensures
        r == spec_single_use(card_type),
{
    match card_type {
        SpecialCardType::MiningFrenzy => true,
        SpecialCardType::LevelRush => true,
        SpecialCardType::NetworkKing => true,
        _ => false,
    }
}

/// Whether some boost of `card` is in force at `t`.
pub open spec fn has_active_boost(boosts: Seq<SpecialCardBoost>, card: SpecialCardType, t: i64) -> bool {
    exists|i: int| 0 <= i < boosts.len() && #[trigger] boosts[i].card_type == card && spec_boost_active(boosts[i], t)
}

/// At most one boost of each card is in force at `t`.
pub open spec fn boosts_distinct_at(boosts: Seq<SpecialCardBoost>, t: i64) -> bool {
    forall|i: int, j: int|
        0 <= i < j < boosts.len() && spec_boost_active(#[trigger] boosts[i], t) && spec_boost_active(#[trigger] boosts[j], t)
            ==> boosts[i].card_type != boosts[j].card_type
}

/// Whether a boost of `card` is in force at `t`.
fn find_active_boost(boosts: &Vec<SpecialCardBoost>, card_type: SpecialCardType, current_time: i64) -> (found: bool)
    ensures
        found == has_active_boost(boosts@, card_type, current_time),
{
    let n = boosts.len();
    let mut i: usize = 0;
    while i < n
        invariant
            n == boosts@.len(),
            i <= n,
            forall|j: int| 0 <= j < i ==> !(#[trigger] boosts@[j].card_type == card_type && spec_boost_active(boosts@[j], current_time)),
        decreases n - i,
    {
        if boosts[i].card_type == card_type && boosts[i].is_active(current_time) {
            return true;
        }
        i = i + 1;
    }
    false
}

/// Activates a special card at `now` for its holder: the user must hold the card
/// (`NoSpecialCardOwned`), no boost of the card may be in force (`CardBoostAlreadyActive`) and
/// fewer than `MAX_ACTIVE_BOOSTS` boosts may be held (`TooManyActiveBoosts`). The new boost
/// starts at `now` with the card's multiplier, duration and uses. Returns whether the card is
/// to be burnt. On failure nothing changes. At most one boost of each card stays in force at
/// `now`, and no more than `MAX_ACTIVE_BOOSTS` are held.
pub fn apply_card_boost(ledger: &mut RewardsLedger, card_balance: u64, card_type: SpecialCardType, now: i64) -> (res:
    Result<bool, FinovaError>)
    requires
        now + 720 * 3600 <= i64::MAX,
    ensures
        card_balance == 0 ==> res == Err::<bool, FinovaError>(FinovaError::NoSpecialCardOwned),
        card_balance > 0 && has_active_boost(old(ledger).active_boosts@, card_type, now) ==> res == Err::<
            bool,
            FinovaError,
        >(FinovaError::CardBoostAlreadyActive),
        card_balance > 0 && !has_active_boost(old(ledger).active_boosts@, card_type, now)
            && old(ledger).active_boosts@.len() >= MAX_ACTIVE_BOOSTS ==> res == Err::<bool, FinovaError>(
            FinovaError::TooManyActiveBoosts,
        ),
        res is Err ==> final(ledger).active_boosts@ == old(ledger).active_boosts@,
        res is Ok ==> {
            let (multiplier, duration) = spec_card_parameters(card_type);
            &&& res == Ok::<bool, FinovaError>(spec_single_use(card_type))
            &&& final(ledger).active_boosts@ == old(ledger).active_boosts@.push(
                SpecialCardBoost {
                    card_type,
                    multiplier_bps: multiplier,
                    start_time: now,
                    end_time: (now + duration) as i64,
                    uses_remaining: spec_card_uses(card_type),
                },
            )
        },
        res is Ok <==> (card_balance > 0 && !has_active_boost(old(ledger).active_boosts@, card_type, now)
            && old(ledger).active_boosts@.len() < MAX_ACTIVE_BOOSTS),
        final(ledger).pending_rewards == old(ledger).pending_rewards,
        final(ledger).total_claimed == old(ledger).total_claimed,
        final(ledger).recent_activities@ == old(ledger).recent_activities@,
        old(ledger).active_boosts@.len() <= MAX_ACTIVE_BOOSTS ==> final(ledger).active_boosts@.len() <= MAX_ACTIVE_BOOSTS,
        boosts_distinct_at(old(ledger).active_boosts@, now) ==> boosts_distinct_at(final(ledger).active_boosts@, now),
{
    if card_balance == 0 {
        return Err(FinovaError::NoSpecialCardOwned);
    }
    if find_active_boost(&ledger.active_boosts, card_type, now) {
        return Err(FinovaError::CardBoostAlreadyActive);
    }
    let (multiplier, duration) = get_card_boost_parameters(card_type);
    let new_boost = SpecialCardBoost {
        card_type,
        multiplier_bps: multiplier,
        start_time: now,
        end_time: now + duration,
        uses_remaining: get_card_uses(card_type),
    };
    if ledger.active_boosts.len() >= MAX_ACTIVE_BOOSTS {
        return Err(FinovaError::TooManyActiveBoosts);
    }
    let ghost before = ledger.active_boosts@;
    ledger.active_boosts.push(new_boost);
    proof {
        let after = ledger.active_boosts@;
        assert forall|i: int, j: int|
            0 <= i < j < after.len() && spec_boost_active(#[trigger] after[i], now) && spec_boost_active(
                #[trigger] after[j],
                now,
            ) && boosts_distinct_at(before, now) implies after[i].card_type != after[j].card_type by {
            if j == before.len() {
                assert(after[i] == before[i]);
                if after[i].card_type == card_type {
                    assert(has_active_boost(before, card_type, now));
                }
            } else {
                assert(after[i] == before[i] && after[j] == before[j]);
            }
        }
    }
    Ok(is_single_use_card(card_type))
}

/// Which boosts are in force at a time: how many, and whether they include a mining, an XP
/// and a referral boost.
#[derive(Clone, Copy, Debug)]
pub struct SynergyProfile {
    pub active_count: u64,
    pub has_mining_boost: bool,
    pub has_xp_boost: bool,
    pub has_referral_boost: bool,
}

/// Mining boosts: double, triple and frenzy.
pub open spec fn is_mining_card(c: SpecialCardType) -> bool {
    c == SpecialCardType::DoubleMining || c == SpecialCardType::TripleMining || c == SpecialCardType::MiningFrenzy
}

/// XP boosts: double XP and XP magnet.
pub open spec fn is_xp_card(c: SpecialCardType) -> bool {
    c == SpecialCardType::XPDouble || c == SpecialCardType::XPMagnet
}

/// Referral boosts: referral boost and network amplifier.
pub open spec fn is_referral_card(c: SpecialCardType) -> bool {
    c == SpecialCardType::ReferralBoost || c == SpecialCardType::NetworkAmplifier
}

/// The number of boosts in force at `t`.
pub open spec fn active_count(boosts: Seq<SpecialCardBoost>, t: i64) -> nat
    decreases boosts.len(),
{
    if boosts.len() == 0 {
        0
    } else {
        active_count(boosts.drop_last(), t) + if spec_boost_active(boosts.last(), t) {
            1nat
        } else {
            0nat
        }
    }
}

/// Whether a boost of a kind is in force at `t`.
pub open spec fn has_active_kind(boosts: Seq<SpecialCardBoost>, t: i64, kind: spec_fn(SpecialCardType) -> bool) -> bool {
    exists|i: int| 0 <= i < boosts.len() && spec_boost_active(#[trigger] boosts[i], t) && kind(boosts[i].card_type)
}

/// The boosts in force at `current_time`, from which the synergy bonus is computed.
pub fn synergy_profile(active_boosts: &Vec<SpecialCardBoost>, current_time: i64) -> (p: SynergyProfile)
    ensures
        p.active_count == active_count(active_boosts@, current_time),
        p.has_mining_boost == has_active_kind(active_boosts@, current_time, |c: SpecialCardType| is_mining_card(c)),
        p.has_xp_boost == has_active_kind(active_boosts@, current_time, |c: SpecialCardType| is_xp_card(c)),
        p.has_referral_boost == has_active_kind(active_boosts@, current_time, |c: SpecialCardType| is_referral_card(c)),
{
    let n = active_boosts.len();
    let mut count: u64 = 0;
    let mut mining = false;
    let mut xp = false;
    let mut referral = false;
    let mut i: usize = 0;
    while i < n
        invariant
            n == active_boosts@.len(),
            i <= n,
            count == active_count(active_boosts@.take(i as int), current_time),
            count <= i,
            mining == has_active_kind(active_boosts@.take(i as int), current_time, |c: SpecialCardType| is_mining_card(c)),
            xp == has_active_kind(active_boosts@.take(i as int), current_time, |c: SpecialCardType| is_xp_card(c)),
            referral == has_active_kind(
                active_boosts@.take(i as int),
                current_time,
                |c: SpecialCardType| is_referral_card(c),
            ),
        decreases n - i,
    {
        let b = active_boosts[i];
        let ghost prefix = active_boosts@.take(i as int);
        let ghost next = active_boosts@.take(i + 1);
        proof {
            assert(next.drop_last() =~= prefix);
            assert(next =~= prefix.push(b));
        }
        if b.is_active(current_time) {
            count = count + 1;
            let c = b.card_type;
            let m = c == SpecialCardType::DoubleMining || c == SpecialCardType::TripleMining || c
                == SpecialCardType::MiningFrenzy;
            let x = c == SpecialCardType::XPDouble || c == SpecialCardType::XPMagnet;
            let r = c == SpecialCardType::ReferralBoost || c == SpecialCardType::NetworkAmplifier;
            proof {
                assert(next[i as int] == b);
                if m {
                    assert(has_active_kind(next, current_time, |c: SpecialCardType| is_mining_card(c)));
                }
                if x {
                    assert(has_active_kind(next, current_time, |c: SpecialCardType| is_xp_card(c)));
                }
                if r {
                    assert(has_active_kind(next, current_time, |c: SpecialCardType| is_referral_card(c)));
                }
            }
            mining = mining || m;
            xp = xp || x;
            referral = referral || r;
        }
        proof {
            assert forall|kind: spec_fn(SpecialCardType) -> bool|
                has_active_kind(next, current_time, kind) implies has_active_kind(prefix, current_time, kind) || (
                spec_boost_active(b, current_time) && kind(b.card_type)) by {
                if has_active_kind(next, current_time, kind) {
                    let k = choose|k: int| 0 <= k < next.len() && spec_boost_active(#[trigger] next[k], current_time) && kind(next[k].card_type);
                    if k < i {
                        assert(prefix[k] == next[k]);
                    }
                }
            }
            assert forall|kind: spec_fn(SpecialCardType) -> bool|
                has_active_kind(prefix, current_time, kind) implies has_active_kind(next, current_time, kind) by {
                if has_active_kind(prefix, current_time, kind) {
                    let k = choose|k: int| 0 <= k < prefix.len() && spec_boost_active(#[trigger] prefix[k], current_time) && kind(prefix[k].card_type);
                    assert(next[k] == prefix[k]);
                }
            }
        }
        i = i + 1;
    }
    proof {
        assert(active_boosts@.take(n as int) =~= active_boosts@);
    }
    SynergyProfile { active_count: count, has_mining_boost: mining, has_xp_boost: xp, has_referral_boost: referral }
}

} // verus!
