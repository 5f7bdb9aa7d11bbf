//! Accounts of the core program that several instructions read and write.
use vstd::prelude::*;

verus! {

/// Kinds of social activity that earn XP.
#[derive(Clone, Copy, Debug, PartialEq, Eq, Structural)]
pub enum XPActivityType {
    OriginalPost,
    PhotoImagePost,
    VideoContent,
    StoryStatus,
    MeaningfulComment,
    LikeReact,
    ShareRepost,
    FollowSubscribe,
    DailyLogin,
    CompleteDailyQuest,
    AchieveMilestone,
    ViralContent,
}

/// Social platforms an activity can happen on.
#[derive(Clone, Copy, Debug, PartialEq, Eq, Structural)]
pub enum SocialPlatform {
    TikTok,
    Instagram,
    YouTube,
    Facebook,
    TwitterX,
    App,
}

/// How far an activity reached.
#[derive(Clone, Copy, Debug, PartialEq, Eq, Structural)]
pub struct EngagementMetrics {
    pub views: u64,
    pub likes: u64,
    pub shares: u64,
    pub comments: u64,
}

/// XP tiers, from Bronze to Mythic.
#[derive(Clone, Copy, Debug, PartialEq, Eq, Structural)]
pub enum XPTier {
    Bronze,
    Silver,
    Gold,
    Platinum,
    Diamond,
    Mythic,
}

/// Achievements a creator can unlock.
#[derive(Clone, Copy, Debug, PartialEq, Eq, Structural)]
pub enum Achievement {
    ViralCreator,
    ConsistentCreator,
    EngagementMaster,
}

/// Why bonus XP was granted.
#[derive(Clone, Copy, Debug, PartialEq, Eq, Structural)]
pub enum BonusXPType {
    Achievement,
    SpecialEvent,
    Community,
    Referral,
    Administrative,
}

/// Kinds of XP booster cards.
#[derive(Clone, Copy, Debug, PartialEq, Eq, Structural)]
pub enum XPBoosterType {
    Inactive,
    DoubleXP,
    TripleXP,
    StreakSaver,
}

/// A grant of bonus XP.
#[derive(Clone, Debug)]
pub struct BonusXPRecord {
    pub bonus_type: BonusXPType,
    pub amount: u64,
    pub timestamp: i64,
    pub reason: String,
}

/// A user's experience points, streaks, daily counters and achievements.
#[derive(Clone, Debug)]
pub struct XPAccount {
    pub authority: [u8; 32],
    pub total_xp: u64,
    pub current_level: u32,
    pub current_tier: XPTier,
    pub recent_activities: Vec<[u8; 32]>,
    pub last_activity_day: i64,
    pub daily_posts: u32,
    pub daily_comments: u32,
    pub daily_likes: u32,
    pub daily_shares: u32,
    pub daily_follows: u32,
    pub last_activity_timestamp: i64,
    pub current_streak: u32,
    pub longest_streak: u32,
    pub activities_count: u64,
    pub total_posts: u64,
    pub total_comments: u64,
    pub total_likes: u64,
    pub total_shares: u64,
    pub total_views: u64,
    pub achievements: Vec<Achievement>,
    pub bonus_history: Vec<BonusXPRecord>,
    pub active_booster_type: XPBoosterType,
    pub active_booster_expiry: i64,
    pub boosters_used: u32,
    pub bump: u8,
}

/// A user's mining state.
#[derive(Clone, Copy, Debug)]
pub struct MiningAccount {
    pub xp_multiplier: u64,
}

/// A user's pending and claimed rewards.
#[derive(Clone, Copy, Debug)]
pub struct RewardsAccount {
    pub pending_fin_rewards: u64,
}

/// Referral tiers, from Explorer to Ambassador.
#[derive(Clone, Copy, Debug, PartialEq, Eq, Structural)]
pub enum ReferralTier {
    Explorer,
    Connector,
    Influencer,
    Leader,
    Ambassador,
}

/// The position of a referral tier, Explorer first.
pub open spec fn referral_tier_rank(t: ReferralTier) -> int {
    match t {
        ReferralTier::Explorer => 0,
        ReferralTier::Connector => 1,
        ReferralTier::Influencer => 2,
        ReferralTier::Leader => 3,
        ReferralTier::Ambassador => 4,
    }
}

/// The position of a referral tier, Explorer first.
pub fn referral_tier_index(t: ReferralTier) -> (r: u8)
    ensures
        r == referral_tier_rank(t),
{
    match t {
        ReferralTier::Explorer => 0,
        ReferralTier::Connector => 1,
        ReferralTier::Influencer => 2,
        ReferralTier::Leader => 3,
        ReferralTier::Ambassador => 4,
    }
}

/// A user's profile in the core program.
#[derive(Clone, Copy, Debug)]
pub struct UserAccount {
    pub is_initialized: bool,
    pub kyc_verified: bool,
    /// Likelihood that the user is a bot, in basis points.
    pub bot_probability: u16,
    pub cooldown_until: i64,
    pub xp_level: u32,
    pub mining_rate: u64,
    pub has_referral_system: bool,
    pub referral_tier: ReferralTier,
    pub total_rewards_claimed: u64,
    /// $FIN held, in lamports.
    pub fin_balance: u64,
    /// Voting power that other users delegated to this one.
    pub delegated_voting_power: u64,
    /// The user this one delegated its voting power to.
    pub voting_delegate: Option<[u8; 32]>,
    pub owner: [u8; 32],
    /// Likelihood that the user is human, in percent.
    pub human_probability_score: u16,
    pub last_probability_update: i64,
    pub is_verified_human: bool,
    pub bot_flags: u32,
    pub cooling_period_end: i64,
    pub poh_submissions: u32,
    pub last_poh_submission: i64,
    pub suspicious_reports: u32,
    pub is_suspended: bool,
    pub suspension_end: i64,
    pub last_behavior_analysis: i64,
}

/// A user's staked $FIN.
#[derive(Clone, Copy, Debug)]
pub struct StakingAccount {
    pub staked_amount: u64,
}

/// Program-wide switches.
#[derive(Clone, Copy, Debug, PartialEq, Eq, Structural)]
pub struct GlobalConfig {
    pub is_paused: bool,
    pub emergency_stop: bool,
}

impl GlobalConfig {
    /// Whether the program accepts operations: neither paused nor stopped.
    pub fn is_operational(&self) -> (r: bool)
        ensures
            r == (!self.is_paused && !self.emergency_stop),
    {
        !self.is_paused && !self.emergency_stop
    }
}

/// Network-wide referral counters and the referral codes already taken.
#[derive(Clone, Debug)]
pub struct NetworkState {
    pub used_referral_codes: Vec<String>,
    pub total_referral_accounts: u64,
    pub total_referral_connections: u64,
    pub total_rp_distributed: u64,
    pub total_rewards_distributed: u64,
}

/// The referral codes already taken, as character sequences.
pub open spec fn used_codes(n: NetworkState) -> Seq<Seq<char>> {
    n.used_referral_codes@.map_values(|s: String| s@)
}

/// A user that a referrer brought in.
#[derive(Clone, Copy, Debug)]
pub struct ReferralInfo {
    pub user: [u8; 32],
    pub joined_at: i64,
    pub total_xp_contributed: u64,
    pub total_mining_contributed: u64,
    pub last_activity: i64,
    pub is_active: bool,
    pub kyc_verified: bool,
}

/// Referral figures of the current month.
#[derive(Clone, Copy, Debug, PartialEq, Eq, Structural)]
pub struct ReferralMonthlyStats {
    pub new_referrals: u32,
    pub rp_earned: u64,
}

/// Referral figures since the account was opened.
#[derive(Clone, Copy, Debug, PartialEq, Eq, Structural)]
pub struct ReferralLifetimeStats {
    pub total_referrals: u64,
    pub total_rp_earned: u64,
    pub total_rewards_claimed: u64,
}

/// A user's referral network: code, referrer, referrals, points and rewards.
#[derive(Clone, Debug)]
pub struct ReferralAccount {
    pub owner: [u8; 32],
    pub referral_code: String,
    pub total_referrals: u32,
    pub active_referrals: u32,
    pub total_rp: u64,
    pub claimable_rewards: u64,
    pub referrer: Option<[u8; 32]>,
    pub tier: ReferralTier,
    pub network_size: u32,
    /// Network quality, in tenths of a percent.
    pub network_quality_score: u64,
    pub last_activity: i64,
    pub created_at: i64,
    pub direct_referrals: Vec<ReferralInfo>,
    pub level_2_referrals: Vec<ReferralInfo>,
    pub level_3_referrals: Vec<ReferralInfo>,
    pub monthly_stats: ReferralMonthlyStats,
    pub lifetime_stats: ReferralLifetimeStats,
    /// Share of rewards kept after network regression, in tenths of a percent.
    pub regression_factor: u64,
    pub bump: u8,
}

} // verus!
