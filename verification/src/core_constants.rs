//! Constants of the core social-mining program: mining phases, XP, referral points,
//! staking, cards, governance, anti-bot limits and account sizes.
use vstd::prelude::*;

verus! {

/// Program version.
pub const PROGRAM_VERSION: u8 = 1;
/// Base mining rates for different phases (FIN tokens per hour)
pub const PHASE_1_BASE_RATE: u64 = 100000;
/// Phase 2 base rate.
pub const PHASE_2_BASE_RATE: u64 = 50000;
/// Phase 3 base rate.
pub const PHASE_3_BASE_RATE: u64 = 25000;
/// Phase 4 base rate.
pub const PHASE_4_BASE_RATE: u64 = 10000;
/// Mining phase thresholds (number of users)
pub const PHASE_1_USER_THRESHOLD: u64 = 100000;
/// Phase 2 user threshold.
pub const PHASE_2_USER_THRESHOLD: u64 = 1000000;
/// Phase 3 user threshold.
pub const PHASE_3_USER_THRESHOLD: u64 = 10000000;
/// Phase 4 user threshold.
pub const PHASE_4_USER_THRESHOLD: u64 = 18446744073709551615;
/// Finizen bonus multipliers for each phase
pub const PHASE_1_FINIZEN_BONUS: u64 = 200;
/// Phase 2 finizen bonus.
pub const PHASE_2_FINIZEN_BONUS: u64 = 150;
/// Phase 3 finizen bonus.
pub const PHASE_3_FINIZEN_BONUS: u64 = 120;
/// Phase 4 finizen bonus.
pub const PHASE_4_FINIZEN_BONUS: u64 = 100;
/// Mining calculation constants
pub const REFERRAL_BONUS_PER_ACTIVE: u64 = 10;
/// Max referral bonus.
pub const MAX_REFERRAL_BONUS: u64 = 300;
/// Kyc security bonus.
pub const KYC_SECURITY_BONUS: u64 = 120;
/// Non kyc penalty.
pub const NON_KYC_PENALTY: u64 = 80;
/// Exponential regression constants
pub const REGRESSION_COEFFICIENT: u64 = 1000;
/// Regression scale.
pub const REGRESSION_SCALE: u64 = 1000000;
/// Daily mining caps (in micro-FIN)
pub const PHASE_1_DAILY_CAP: u64 = 4800000;
/// Phase 2 daily cap.
pub const PHASE_2_DAILY_CAP: u64 = 1800000;
/// Phase 3 daily cap.
pub const PHASE_3_DAILY_CAP: u64 = 720000;
/// Phase 4 daily cap.
pub const PHASE_4_DAILY_CAP: u64 = 240000;
/// Base XP values for different activities
pub const XP_ORIGINAL_POST: u64 = 50;
/// Xp photo post.
pub const XP_PHOTO_POST: u64 = 75;
/// Xp video post.
pub const XP_VIDEO_POST: u64 = 150;
/// Xp story status.
pub const XP_STORY_STATUS: u64 = 25;
/// Xp meaningful comment.
pub const XP_MEANINGFUL_COMMENT: u64 = 25;
/// Xp like react.
pub const XP_LIKE_REACT: u64 = 5;
/// Xp share repost.
pub const XP_SHARE_REPOST: u64 = 15;
/// Xp follow subscribe.
pub const XP_FOLLOW_SUBSCRIBE: u64 = 20;
/// Xp daily login.
pub const XP_DAILY_LOGIN: u64 = 10;
/// Xp daily quest.
pub const XP_DAILY_QUEST: u64 = 100;
/// Xp milestone.
pub const XP_MILESTONE: u64 = 500;
/// Xp viral content.
pub const XP_VIRAL_CONTENT: u64 = 1000;
/// Platform multipliers (in basis points, 100 = 1.0x)
pub const PLATFORM_TIKTOK_MULTIPLIER: u64 = 130;
/// Platform instagram multiplier.
pub const PLATFORM_INSTAGRAM_MULTIPLIER: u64 = 120;
/// Platform youtube multiplier.
pub const PLATFORM_YOUTUBE_MULTIPLIER: u64 = 140;
/// Platform x multiplier.
pub const PLATFORM_X_MULTIPLIER: u64 = 120;
/// Platform facebook multiplier.
pub const PLATFORM_FACEBOOK_MULTIPLIER: u64 = 110;
/// Platform default multiplier.
pub const PLATFORM_DEFAULT_MULTIPLIER: u64 = 100;
/// Quality score bounds (in basis points)
pub const MIN_QUALITY_SCORE: u64 = 50;
/// Max quality score.
pub const MAX_QUALITY_SCORE: u64 = 200;
/// Default quality score.
pub const DEFAULT_QUALITY_SCORE: u64 = 100;
/// Streak bonus multipliers (in basis points)
pub const MAX_STREAK_BONUS: u64 = 300;
/// Streak bonus increment.
pub const STREAK_BONUS_INCREMENT: u64 = 5;
/// Level progression constants
pub const LEVEL_PROGRESSION_COEFFICIENT: u64 = 100;
/// Level progression scale.
pub const LEVEL_PROGRESSION_SCALE: u64 = 10000;
/// Daily activity limits
pub const DAILY_PHOTO_POST_LIMIT: u32 = 20;
/// Daily video post limit.
pub const DAILY_VIDEO_POST_LIMIT: u32 = 10;
/// Daily story limit.
pub const DAILY_STORY_LIMIT: u32 = 50;
/// Daily comment limit.
pub const DAILY_COMMENT_LIMIT: u32 = 100;
/// Daily like limit.
pub const DAILY_LIKE_LIMIT: u32 = 200;
/// Daily share limit.
pub const DAILY_SHARE_LIMIT: u32 = 50;
/// Daily follow limit.
pub const DAILY_FOLLOW_LIMIT: u32 = 25;
/// Daily quest limit.
pub const DAILY_QUEST_LIMIT: u32 = 3;
/// XP Level tiers and mining multipliers
pub const BRONZE_LEVEL_START: u32 = 1;
/// Bronze level end.
pub const BRONZE_LEVEL_END: u32 = 10;
/// Silver level start.
pub const SILVER_LEVEL_START: u32 = 11;
/// Silver level end.
pub const SILVER_LEVEL_END: u32 = 25;
/// Gold level start.
pub const GOLD_LEVEL_START: u32 = 26;
/// Gold level end.
pub const GOLD_LEVEL_END: u32 = 50;
/// Platinum level start.
pub const PLATINUM_LEVEL_START: u32 = 51;
/// Platinum level end.
pub const PLATINUM_LEVEL_END: u32 = 75;
/// Diamond level start.
pub const DIAMOND_LEVEL_START: u32 = 76;
/// Diamond level end.
pub const DIAMOND_LEVEL_END: u32 = 100;
/// Mythic level start.
pub const MYTHIC_LEVEL_START: u32 = 101;
/// Mining multipliers for XP levels (in basis points)
pub const BRONZE_MINING_MULTIPLIER_MIN: u64 = 100;
/// Bronze mining multiplier max.
pub const BRONZE_MINING_MULTIPLIER_MAX: u64 = 120;
/// Silver mining multiplier min.
pub const SILVER_MINING_MULTIPLIER_MIN: u64 = 130;
/// Silver mining multiplier max.
pub const SILVER_MINING_MULTIPLIER_MAX: u64 = 180;
/// Gold mining multiplier min.
pub const GOLD_MINING_MULTIPLIER_MIN: u64 = 190;
/// Gold mining multiplier max.
pub const GOLD_MINING_MULTIPLIER_MAX: u64 = 250;
/// Platinum mining multiplier min.
pub const PLATINUM_MINING_MULTIPLIER_MIN: u64 = 260;
/// Platinum mining multiplier max.
pub const PLATINUM_MINING_MULTIPLIER_MAX: u64 = 320;
/// Diamond mining multiplier min.
pub const DIAMOND_MINING_MULTIPLIER_MIN: u64 = 330;
/// Diamond mining multiplier max.
pub const DIAMOND_MINING_MULTIPLIER_MAX: u64 = 400;
/// Mythic mining multiplier min.
pub const MYTHIC_MINING_MULTIPLIER_MIN: u64 = 410;
/// Mythic mining multiplier max.
pub const MYTHIC_MINING_MULTIPLIER_MAX: u64 = 500;
/// XP requirements for each level tier
pub const BRONZE_XP_REQUIREMENT: u64 = 0;
/// Silver xp requirement.
pub const SILVER_XP_REQUIREMENT: u64 = 1000;
/// Gold xp requirement.
pub const GOLD_XP_REQUIREMENT: u64 = 5000;
/// Platinum xp requirement.
pub const PLATINUM_XP_REQUIREMENT: u64 = 20000;
/// Diamond xp requirement.
pub const DIAMOND_XP_REQUIREMENT: u64 = 50000;
/// Mythic xp requirement.
pub const MYTHIC_XP_REQUIREMENT: u64 = 100000;
/// RP earning structure
pub const RP_SIGNUP_BONUS: u64 = 50;
/// Rp kyc bonus.
pub const RP_KYC_BONUS: u64 = 100;
/// Rp first mining bonus.
pub const RP_FIRST_MINING_BONUS: u64 = 25;
/// Rp daily mining percentage.
pub const RP_DAILY_MINING_PERCENTAGE: u64 = 10;
/// Rp xp percentage.
pub const RP_XP_PERCENTAGE: u64 = 5;
/// Rp achievement bonus.
pub const RP_ACHIEVEMENT_BONUS: u64 = 50;
/// Network milestone bonuses
pub const RP_10_ACTIVE_BONUS: u64 = 500;
/// Rp 25 active bonus.
pub const RP_25_ACTIVE_BONUS: u64 = 1500;
/// Rp 50 active bonus.
pub const RP_50_ACTIVE_BONUS: u64 = 5000;
/// Rp 100 active bonus.
pub const RP_100_ACTIVE_BONUS: u64 = 15000;
/// RP Tier thresholds and benefits
pub const EXPLORER_RP_MIN: u64 = 0;
/// Connector rp min.
pub const CONNECTOR_RP_MIN: u64 = 1000;
/// Influencer rp min.
pub const INFLUENCER_RP_MIN: u64 = 5000;
/// Leader rp min.
pub const LEADER_RP_MIN: u64 = 15000;
/// Ambassador rp min.
pub const AMBASSADOR_RP_MIN: u64 = 50000;
/// RP Tier mining bonuses (in basis points)
pub const EXPLORER_MINING_BONUS: u64 = 0;
/// Connector mining bonus.
pub const CONNECTOR_MINING_BONUS: u64 = 20;
/// Influencer mining bonus.
pub const INFLUENCER_MINING_BONUS: u64 = 50;
/// Leader mining bonus.
pub const LEADER_MINING_BONUS: u64 = 100;
/// Ambassador mining bonus.
pub const AMBASSADOR_MINING_BONUS: u64 = 200;
/// Referral network limits
pub const EXPLORER_REFERRAL_LIMIT: u32 = 10;
/// Connector referral limit.
pub const CONNECTOR_REFERRAL_LIMIT: u32 = 25;
/// Influencer referral limit.
pub const INFLUENCER_REFERRAL_LIMIT: u32 = 50;
/// Leader referral limit.
pub const LEADER_REFERRAL_LIMIT: u32 = 100;
/// Ambassador referral limit.
pub const AMBASSADOR_REFERRAL_LIMIT: u32 = 4294967295;
/// Referral commission percentages (in basis points)
pub const EXPLORER_L1_COMMISSION: u64 = 10;
/// Connector l1 commission.
pub const CONNECTOR_L1_COMMISSION: u64 = 15;
/// Influencer l1 commission.
pub const INFLUENCER_L1_COMMISSION: u64 = 20;
/// Leader l1 commission.
pub const LEADER_L1_COMMISSION: u64 = 25;
/// Ambassador l1 commission.
pub const AMBASSADOR_L1_COMMISSION: u64 = 30;
/// Connector l2 commission.
pub const CONNECTOR_L2_COMMISSION: u64 = 5;
/// Influencer l2 commission.
pub const INFLUENCER_L2_COMMISSION: u64 = 8;
/// Leader l2 commission.
pub const LEADER_L2_COMMISSION: u64 = 10;
/// Ambassador l2 commission.
pub const AMBASSADOR_L2_COMMISSION: u64 = 15;
/// Influencer l3 commission.
pub const INFLUENCER_L3_COMMISSION: u64 = 3;
/// Leader l3 commission.
pub const LEADER_L3_COMMISSION: u64 = 5;
/// Ambassador l3 commission.
pub const AMBASSADOR_L3_COMMISSION: u64 = 8;
/// Network quality regression constants
pub const NETWORK_REGRESSION_COEFFICIENT: u64 = 100;
/// Network regression scale.
pub const NETWORK_REGRESSION_SCALE: u64 = 1000000;
/// Staking tiers (in FIN tokens, scaled by 1M for micro-FIN)
pub const BASIC_STAKE_MIN: u64 = 100000000;
/// Premium stake min.
pub const PREMIUM_STAKE_MIN: u64 = 500000000;
/// Vip stake min.
pub const VIP_STAKE_MIN: u64 = 1000000000;
/// Elite stake min.
pub const ELITE_STAKE_MIN: u64 = 5000000000;
/// Whale stake min.
pub const WHALE_STAKE_MIN: u64 = 10000000000;
/// Staking APY rates (in basis points, annual)
pub const BASIC_STAKE_APY: u64 = 800;
/// Premium stake apy.
pub const PREMIUM_STAKE_APY: u64 = 1000;
/// Vip stake apy.
pub const VIP_STAKE_APY: u64 = 1200;
/// Elite stake apy.
pub const ELITE_STAKE_APY: u64 = 1400;
/// Whale stake apy.
pub const WHALE_STAKE_APY: u64 = 1500;
/// Staking mining boosts (in basis points)
pub const BASIC_STAKE_MINING_BOOST: u64 = 20;
/// Premium stake mining boost.
pub const PREMIUM_STAKE_MINING_BOOST: u64 = 35;
/// Vip stake mining boost.
pub const VIP_STAKE_MINING_BOOST: u64 = 50;
/// Elite stake mining boost.
pub const ELITE_STAKE_MINING_BOOST: u64 = 75;
/// Whale stake mining boost.
pub const WHALE_STAKE_MINING_BOOST: u64 = 100;
/// Staking XP multipliers (in basis points)
pub const BASIC_STAKE_XP_MULTIPLIER: u64 = 110;
/// Premium stake xp multiplier.
pub const PREMIUM_STAKE_XP_MULTIPLIER: u64 = 120;
/// Vip stake xp multiplier.
pub const VIP_STAKE_XP_MULTIPLIER: u64 = 130;
/// Elite stake xp multiplier.
pub const ELITE_STAKE_XP_MULTIPLIER: u64 = 150;
/// Whale stake xp multiplier.
pub const WHALE_STAKE_XP_MULTIPLIER: u64 = 175;
/// Staking RP bonuses (in basis points)
pub const BASIC_STAKE_RP_BONUS: u64 = 5;
/// Premium stake rp bonus.
pub const PREMIUM_STAKE_RP_BONUS: u64 = 10;
/// Vip stake rp bonus.
pub const VIP_STAKE_RP_BONUS: u64 = 20;
/// Elite stake rp bonus.
pub const ELITE_STAKE_RP_BONUS: u64 = 35;
/// Whale stake rp bonus.
pub const WHALE_STAKE_RP_BONUS: u64 = 50;
/// Staking duration multipliers (in basis points)
pub const LOYALTY_BONUS_MONTHLY_INCREMENT: u64 = 5;
/// Max loyalty bonus.
pub const MAX_LOYALTY_BONUS: u64 = 200;
/// Unstaking penalties (in basis points)
pub const EARLY_UNSTAKE_PENALTY_1_MONTH: u64 = 500;
/// Early unstake penalty 3 months.
pub const EARLY_UNSTAKE_PENALTY_3_MONTHS: u64 = 300;
/// Early unstake penalty 6 months.
pub const EARLY_UNSTAKE_PENALTY_6_MONTHS: u64 = 100;
/// Human probability thresholds (in basis points)
pub const MIN_HUMAN_PROBABILITY: u64 = 5000;
/// High human probability.
pub const HIGH_HUMAN_PROBABILITY: u64 = 8000;
/// Perfect human probability.
pub const PERFECT_HUMAN_PROBABILITY: u64 = 10000;
/// Bot detection factors and weights (in basis points)
pub const BIOMETRIC_WEIGHT: u64 = 2500;
/// Behavioral weight.
pub const BEHAVIORAL_WEIGHT: u64 = 2000;
/// Social graph weight.
pub const SOCIAL_GRAPH_WEIGHT: u64 = 2000;
/// Device weight.
pub const DEVICE_WEIGHT: u64 = 1500;
/// Interaction weight.
pub const INTERACTION_WEIGHT: u64 = 2000;
/// Activity analysis constants
pub const MIN_SESSION_DURATION: u64 = 30;
/// Max session duration.
pub const MAX_SESSION_DURATION: u64 = 14400;
/// Suspicious click speed.
pub const SUSPICIOUS_CLICK_SPEED: u64 = 100;
/// Natural break min.
pub const NATURAL_BREAK_MIN: u64 = 300;
/// Progressive difficulty scaling
pub const DIFFICULTY_SCALING_FACTOR: u64 = 1000;
/// Suspicious score multiplier.
pub const SUSPICIOUS_SCORE_MULTIPLIER: u64 = 200;
/// Cooling period constants (in seconds)
pub const INTENSIVE_SESSION_COOLDOWN: u64 = 3600;
/// Suspicious activity cooldown.
pub const SUSPICIOUS_ACTIVITY_COOLDOWN: u64 = 86400;
/// Bot detection cooldown.
pub const BOT_DETECTION_COOLDOWN: u64 = 604800;
/// Guild size limits
pub const MIN_GUILD_SIZE: u32 = 10;
/// Max guild size.
pub const MAX_GUILD_SIZE: u32 = 50;
/// Guild leader min level.
pub const GUILD_LEADER_MIN_LEVEL: u32 = 11;
/// Guild activity bonuses (in basis points)
pub const DAILY_CHALLENGE_XP_BONUS: u64 = 20;
/// Weekly war mining bonus.
pub const WEEKLY_WAR_MINING_BONUS: u64 = 15;
/// Guild participation bonus.
pub const GUILD_PARTICIPATION_BONUS: u64 = 30;
/// Guild competition rewards (in micro-FIN)
pub const DAILY_CHALLENGE_REWARD_POOL: u64 = 1000000;
/// Weekly war reward pool.
pub const WEEKLY_WAR_REWARD_POOL: u64 = 10000000;
/// Monthly championship pool.
pub const MONTHLY_CHAMPIONSHIP_POOL: u64 = 100000000;
/// Seasonal league pool.
pub const SEASONAL_LEAGUE_POOL: u64 = 1000000000;
/// Guild treasury limits
pub const MAX_GUILD_TREASURY: u64 = 100000000000;
/// Voting power calculation weights (in basis points)
pub const STAKED_TOKEN_WEIGHT: u64 = 4000;
/// Xp level weight.
pub const XP_LEVEL_WEIGHT: u64 = 2000;
/// Rp tier weight.
pub const RP_TIER_WEIGHT: u64 = 2000;
/// Activity weight.
pub const ACTIVITY_WEIGHT: u64 = 2000;
/// Proposal thresholds
pub const MIN_PROPOSAL_THRESHOLD: u64 = 1000000000;
/// Quorum percentage.
pub const QUORUM_PERCENTAGE: u64 = 2000;
/// Passing threshold.
pub const PASSING_THRESHOLD: u64 = 5100;
/// Voting periods (in slots, ~400ms per slot on Solana)
pub const VOTING_PERIOD: u64 = 1209600;
/// Execution delay.
pub const EXECUTION_DELAY: u64 = 432000;
/// Grace period.
pub const GRACE_PERIOD: u64 = 432000;
/// Special card types and effects
pub const DOUBLE_MINING_CARD_BOOST: u64 = 200;
/// Triple mining card boost.
pub const TRIPLE_MINING_CARD_BOOST: u64 = 300;
/// Mining frenzy card boost.
pub const MINING_FRENZY_CARD_BOOST: u64 = 600;
/// Eternal miner card boost.
pub const ETERNAL_MINER_CARD_BOOST: u64 = 150;
/// Card durations (in seconds)
pub const DOUBLE_MINING_DURATION: u64 = 86400;
/// Triple mining duration.
pub const TRIPLE_MINING_DURATION: u64 = 43200;
/// Mining frenzy duration.
pub const MINING_FRENZY_DURATION: u64 = 14400;
/// Eternal miner duration.
pub const ETERNAL_MINER_DURATION: u64 = 2592000;
/// Card prices (in micro-FIN)
pub const DOUBLE_MINING_CARD_PRICE: u64 = 50000000;
/// Triple mining card price.
pub const TRIPLE_MINING_CARD_PRICE: u64 = 150000000;
/// Mining frenzy card price.
pub const MINING_FRENZY_CARD_PRICE: u64 = 500000000;
/// Eternal miner card price.
pub const ETERNAL_MINER_CARD_PRICE: u64 = 2000000000;
/// XP accelerator cards
pub const XP_DOUBLE_CARD_BOOST: u64 = 200;
/// Xp double duration.
pub const XP_DOUBLE_DURATION: u64 = 86400;
/// Xp double price.
pub const XP_DOUBLE_PRICE: u64 = 40000000;
/// Level rush xp bonus.
pub const LEVEL_RUSH_XP_BONUS: u64 = 500;
/// Level rush price.
pub const LEVEL_RUSH_PRICE: u64 = 120000000;
/// Xp magnet viral boost.
pub const XP_MAGNET_VIRAL_BOOST: u64 = 400;
/// Xp magnet duration.
pub const XP_MAGNET_DURATION: u64 = 172800;
/// Xp magnet price.
pub const XP_MAGNET_PRICE: u64 = 300000000;
/// Referral power cards
pub const REFERRAL_BOOST_BONUS: u64 = 150;
/// Referral boost duration.
pub const REFERRAL_BOOST_DURATION: u64 = 604800;
/// Referral boost price.
pub const REFERRAL_BOOST_PRICE: u64 = 60000000;
/// Network amplifier tier boost.
pub const NETWORK_AMPLIFIER_TIER_BOOST: u64 = 2;
/// Network amplifier duration.
pub const NETWORK_AMPLIFIER_DURATION: u64 = 86400;
/// Network amplifier price.
pub const NETWORK_AMPLIFIER_PRICE: u64 = 200000000;
/// Card synergy bonuses (in basis points)
pub const SAME_CATEGORY_SYNERGY_BONUS: u64 = 15;
/// All categories synergy bonus.
pub const ALL_CATEGORIES_SYNERGY_BONUS: u64 = 30;
/// Card count bonus per card.
pub const CARD_COUNT_BONUS_PER_CARD: u64 = 10;
/// Card rarity multipliers (in basis points)
pub const COMMON_RARITY_BONUS: u64 = 0;
/// Uncommon rarity bonus.
pub const UNCOMMON_RARITY_BONUS: u64 = 5;
/// Rare rarity bonus.
pub const RARE_RARITY_BONUS: u64 = 10;
/// Epic rarity bonus.
pub const EPIC_RARITY_BONUS: u64 = 20;
/// Legendary rarity bonus.
pub const LEGENDARY_RARITY_BONUS: u64 = 35;
/// Time constants (in seconds)
pub const SECONDS_PER_MINUTE: u64 = 60;
/// Seconds per hour.
pub const SECONDS_PER_HOUR: u64 = 3600;
/// Seconds per day.
pub const SECONDS_PER_DAY: u64 = 86400;
/// Seconds per week.
pub const SECONDS_PER_WEEK: u64 = 604800;
/// Seconds per month.
pub const SECONDS_PER_MONTH: u64 = 2629746;
/// Seconds per year.
pub const SECONDS_PER_YEAR: u64 = 31556952;
/// Calculation precision constants
pub const BASIS_POINTS_SCALE: u64 = 10000;
/// Percentage scale.
pub const PERCENTAGE_SCALE: u64 = 100;
/// Micro fin scale.
pub const MICRO_FIN_SCALE: u64 = 1000000;
/// Precision multiplier.
pub const PRECISION_MULTIPLIER: u64 = 1000000;
/// Mathematical constants (scaled for integer arithmetic)
pub const E_SCALED: u64 = 2718282;
/// Pi scaled.
pub const PI_SCALED: u64 = 3141593;
/// Token supply constants (in micro-FIN)
pub const MAX_TOTAL_SUPPLY: u64 = 100000000000000000;
/// Community mining allocation.
pub const COMMUNITY_MINING_ALLOCATION: u64 = 50000000000000000;
/// Team allocation.
pub const TEAM_ALLOCATION: u64 = 20000000000000000;
/// Investor allocation.
pub const INVESTOR_ALLOCATION: u64 = 15000000000000000;
/// Public sale allocation.
pub const PUBLIC_SALE_ALLOCATION: u64 = 10000000000000000;
/// Treasury allocation.
pub const TREASURY_ALLOCATION: u64 = 5000000000000000;
/// Fee constants (in basis points)
pub const TRANSACTION_FEE: u64 = 10;
/// Nft marketplace fee.
pub const NFT_MARKETPLACE_FEE: u64 = 250;
/// Dex swap fe.
pub const DEX_SWAP_FE: u64 = 30;
/// Whale tax threshold.
pub const WHALE_TAX_THRESHOLD: u64 = 100000000000;
/// Whale tax rate.
pub const WHALE_TAX_RATE: u64 = 500;
/// Reward pool distribution (in basis points)
pub const MINING_REWARDS_ALLOCATION: u64 = 4000;
/// Xp bonus allocation.
pub const XP_BONUS_ALLOCATION: u64 = 2500;
/// Rp network allocation.
pub const RP_NETWORK_ALLOCATION: u64 = 2000;
/// Special events allocation.
pub const SPECIAL_EVENTS_ALLOCATION: u64 = 1000;
/// Treasury reserve allocation.
pub const TREASURY_RESERVE_ALLOCATION: u64 = 500;
/// Social platform identifiers
pub const PLATFORM_INSTAGRAM: u8 = 1;
/// Platform tiktok.
pub const PLATFORM_TIKTOK: u8 = 2;
/// Platform youtube.
pub const PLATFORM_YOUTUBE: u8 = 3;
/// Platform facebook.
pub const PLATFORM_FACEBOOK: u8 = 4;
/// Platform x twitter.
pub const PLATFORM_X_TWITTER: u8 = 5;
/// Platform finova app.
pub const PLATFORM_FINOVA_APP: u8 = 6;
/// Content type identifiers
pub const CONTENT_TEXT_POST: u8 = 1;
/// Content photo post.
pub const CONTENT_PHOTO_POST: u8 = 2;
/// Content video post.
pub const CONTENT_VIDEO_POST: u8 = 3;
/// Content story status.
pub const CONTENT_STORY_STATUS: u8 = 4;
/// Content comment.
pub const CONTENT_COMMENT: u8 = 5;
/// Content like react.
pub const CONTENT_LIKE_REACT: u8 = 6;
/// Content share repost.
pub const CONTENT_SHARE_REPOST: u8 = 7;
/// Content follow subscribe.
pub const CONTENT_FOLLOW_SUBSCRIBE: u8 = 8;
/// Activity type identifiers
pub const ACTIVITY_DAILY_LOGIN: u8 = 10;
/// Activity daily quest.
pub const ACTIVITY_DAILY_QUEST: u8 = 11;
/// Activity milestone.
pub const ACTIVITY_MILESTONE: u8 = 12;
/// Activity viral content.
pub const ACTIVITY_VIRAL_CONTENT: u8 = 13;
/// Activity referral success.
pub const ACTIVITY_REFERRAL_SUCCESS: u8 = 14;
/// Activity kyc completion.
pub const ACTIVITY_KYC_COMPLETION: u8 = 15;
/// Activity first mining.
pub const ACTIVITY_FIRST_MINING: u8 = 16;
/// Activity guild participation.
pub const ACTIVITY_GUILD_PARTICIPATION: u8 = 17;
/// Viral content thresholds
pub const VIRAL_THRESHOLD_VIEWS: u64 = 1000;
/// Viral threshold likes.
pub const VIRAL_THRESHOLD_LIKES: u64 = 100;
/// Viral threshold shares.
pub const VIRAL_THRESHOLD_SHARES: u64 = 50;
/// Viral threshold comments.
pub const VIRAL_THRESHOLD_COMMENTS: u64 = 25;
/// E-wallet integration constants
pub const EWALLET_OVO: u8 = 1;
/// Ewallet gopay.
pub const EWALLET_GOPAY: u8 = 2;
/// Ewallet dana.
pub const EWALLET_DANA: u8 = 3;
/// Ewallet shopeepay.
pub const EWALLET_SHOPEEPAY: u8 = 4;
/// Ewallet linkaja.
pub const EWALLET_LINKAJA: u8 = 5;
/// KYC verification levels
pub const KYC_LEVEL_NONE: u8 = 0;
/// Kyc level basic.
pub const KYC_LEVEL_BASIC: u8 = 1;
/// Kyc level standard.
pub const KYC_LEVEL_STANDARD: u8 = 2;
/// Kyc level premium.
pub const KYC_LEVEL_PREMIUM: u8 = 3;
/// Kyc level enterprise.
pub const KYC_LEVEL_ENTERPRISE: u8 = 4;
/// Maximum retry attempts for failed operations
pub const MAX_RETRY_ATTEMPTS: u8 = 3;
/// Retry delay base.
pub const RETRY_DELAY_BASE: u64 = 1000;
/// Rate limiting constants
pub const MAX_TRANSACTIONS_PER_BLOCK: u32 = 100;
/// Max xp activities per hour.
pub const MAX_XP_ACTIVITIES_PER_HOUR: u32 = 500;
/// Max mining claims per day.
pub const MAX_MINING_CLAIMS_PER_DAY: u32 = 24;
/// Max referral invites per day.
pub const MAX_REFERRAL_INVITES_PER_DAY: u32 = 10;
/// Account state validation constants
pub const MIN_ACCOUNT_AGE_FOR_MINING: u64 = 86400;
/// Min activity for rewards.
pub const MIN_ACTIVITY_FOR_REWARDS: u32 = 1;
/// Max inactive days.
pub const MAX_INACTIVE_DAYS: u32 = 30;
/// Network growth targets
pub const HEALTHY_DAILY_NEW_USERS: u32 = 1000;
/// Healthy retention rate.
pub const HEALTHY_RETENTION_RATE: u64 = 7000;
/// Healthy engagement rate.
pub const HEALTHY_ENGAGEMENT_RATE: u64 = 2000;
/// Network stability thresholds
pub const MAX_WHALE_CONCENTRATION: u64 = 1000;
/// Min network diversity.
pub const MIN_NETWORK_DIVERSITY: u64 = 8000;
/// Suspicious growth rate.
pub const SUSPICIOUS_GROWTH_RATE: u64 = 10000;
/// Economic health indicators
pub const HEALTHY_MINING_DISTRIBUTION: u64 = 8000;
/// Max inflation rate.
pub const MAX_INFLATION_RATE: u64 = 500;
/// Min staking participation.
pub const MIN_STAKING_PARTICIPATION: u64 = 3000;
/// Event multipliers and bonuses
pub const LAUNCH_WEEK_BONUS: u64 = 200;
/// Holiday bonus.
pub const HOLIDAY_BONUS: u64 = 150;
/// Anniversary bonus.
pub const ANNIVERSARY_BONUS: u64 = 300;
/// Community milestone bonus.
pub const COMMUNITY_MILESTONE_BONUS: u64 = 250;
/// Event durations (in seconds)
pub const LAUNCH_WEEK_DURATION: u64 = 604800;
/// Holiday event duration.
pub const HOLIDAY_EVENT_DURATION: u64 = 259200;
/// Anniversary duration.
pub const ANNIVERSARY_DURATION: u64 = 1209600;
/// Flash event duration.
pub const FLASH_EVENT_DURATION: u64 = 86400;
/// Competition and tournament constants
pub const TOURNAMENT_ENTRY_FEE: u64 = 10000000;
/// Min tournament participants.
pub const MIN_TOURNAMENT_PARTICIPANTS: u32 = 100;
/// Max tournament participants.
pub const MAX_TOURNAMENT_PARTICIPANTS: u32 = 10000;
/// Tournament prize pool base.
pub const TOURNAMENT_PRIZE_POOL_BASE: u64 = 1000000000;
/// Social media API rate limits (per hour)
pub const INSTAGRAM_API_LIMIT: u32 = 1000;
/// Tiktok api limit.
pub const TIKTOK_API_LIMIT: u32 = 800;
/// Youtube api limit.
pub const YOUTUBE_API_LIMIT: u32 = 1200;
/// Facebook api limit.
pub const FACEBOOK_API_LIMIT: u32 = 1500;
/// X api limit.
pub const X_API_LIMIT: u32 = 600;
/// Webhook and notification limits
pub const MAX_WEBHOOK_RETRIES: u8 = 5;
/// Webhook timeout.
pub const WEBHOOK_TIMEOUT: u64 = 30000;
/// Max notifications per user per day.
pub const MAX_NOTIFICATIONS_PER_USER_PER_DAY: u32 = 50;
/// Notification batch size.
pub const NOTIFICATION_BATCH_SIZE: u32 = 1000;
/// Data sync and backup constants
pub const BLOCKCHAIN_SYNC_INTERVAL: u64 = 300;
/// Database backup interval.
pub const DATABASE_BACKUP_INTERVAL: u64 = 86400;
/// Cache refresh interval.
pub const CACHE_REFRESH_INTERVAL: u64 = 3600;
/// Analytics processing interval.
pub const ANALYTICS_PROCESSING_INTERVAL: u64 = 1800;
/// Security thresholds and limits
pub const MAX_LOGIN_ATTEMPTS: u8 = 5;
/// Lockout duration.
pub const LOCKOUT_DURATION: u64 = 3600;
/// Session timeout.
pub const SESSION_TIMEOUT: u64 = 86400;
/// Password reset cooldown.
pub const PASSWORD_RESET_COOLDOWN: u64 = 300;
/// AML/KYC compliance limits (in micro-FIN)
pub const DAILY_WITHDRAWAL_LIMIT_BASIC: u64 = 1000000000;
/// Daily withdrawal limit standard.
pub const DAILY_WITHDRAWAL_LIMIT_STANDARD: u64 = 10000000000;
/// Daily withdrawal limit premium.
pub const DAILY_WITHDRAWAL_LIMIT_PREMIUM: u64 = 100000000000;
/// Monthly volume limit basic.
pub const MONTHLY_VOLUME_LIMIT_BASIC: u64 = 10000000000;
/// Monthly volume limit standard.
pub const MONTHLY_VOLUME_LIMIT_STANDARD: u64 = 100000000000;
/// Suspicious activity thresholds
pub const LARGE_TRANSACTION_THRESHOLD: u64 = 50000000000;
/// Rapid transaction count.
pub const RAPID_TRANSACTION_COUNT: u32 = 100;
/// Velocity check threshold.
pub const VELOCITY_CHECK_THRESHOLD: u64 = 10000000000;
/// Exponential regression parameters
pub const EXPONENTIAL_BASE: u64 = 2718282;
/// Regression decay rate.
pub const REGRESSION_DECAY_RATE: u64 = 1000;
/// Min regression value.
pub const MIN_REGRESSION_VALUE: u64 = 100;
/// Quality scoring algorithm parameters
pub const ORIGINALITY_WEIGHT: u64 = 2500;
/// Engagement prediction weight.
pub const ENGAGEMENT_PREDICTION_WEIGHT: u64 = 2000;
/// Platform relevance weight.
pub const PLATFORM_RELEVANCE_WEIGHT: u64 = 2000;
/// Brand safety weight.
pub const BRAND_SAFETY_WEIGHT: u64 = 1500;
/// Human generated weight.
pub const HUMAN_GENERATED_WEIGHT: u64 = 2000;
/// Network analysis parameters
pub const MIN_NETWORK_CONNECTIONS: u32 = 3;
/// Max network depth.
pub const MAX_NETWORK_DEPTH: u32 = 6;
/// Clustering coefficient threshold.
pub const CLUSTERING_COEFFICIENT_THRESHOLD: u64 = 5000;
/// Machine learning model parameters
pub const TRAINING_DATA_MIN_SIZE: u32 = 10000;
/// Model update frequency.
pub const MODEL_UPDATE_FREQUENCY: u64 = 604800;
/// Prediction confidence threshold.
pub const PREDICTION_CONFIDENCE_THRESHOLD: u64 = 7500;
/// Test environment constants
pub const TEST_USER_MINING_MULTIPLIER: u64 = 1000;
/// Test fast time multiplier.
pub const TEST_FAST_TIME_MULTIPLIER: u64 = 100;
/// Test reduced cooldowns.
pub const TEST_REDUCED_COOLDOWNS: u64 = 60;
/// Debug and monitoring constants
pub const LOG_LEVEL_ERROR: u8 = 0;
/// Log level warn.
pub const LOG_LEVEL_WARN: u8 = 1;
/// Log level info.
pub const LOG_LEVEL_INFO: u8 = 2;
/// Log level debug.
pub const LOG_LEVEL_DEBUG: u8 = 3;
/// Log level trace.
pub const LOG_LEVEL_TRACE: u8 = 4;
/// Performance monitoring thresholds
pub const MAX_INSTRUCTION_EXECUTION_TIME: u64 = 1000;
/// Max compute units.
pub const MAX_COMPUTE_UNITS: u64 = 1400000;
/// Warning compute units.
pub const WARNING_COMPUTE_UNITS: u64 = 1000000;
/// Feature enablement flags (bit flags)
pub const FEATURE_MINING_ENABLED: u64 = 1;
/// Feature xp system enabled.
pub const FEATURE_XP_SYSTEM_ENABLED: u64 = 2;
/// Feature referral system enabled.
pub const FEATURE_REFERRAL_SYSTEM_ENABLED: u64 = 4;
/// Feature staking enabled.
pub const FEATURE_STAKING_ENABLED: u64 = 8;
/// Feature nfts enabled.
pub const FEATURE_NFTS_ENABLED: u64 = 16;
/// Feature guilds enabled.
pub const FEATURE_GUILDS_ENABLED: u64 = 32;
/// Feature governance enabled.
pub const FEATURE_GOVERNANCE_ENABLED: u64 = 64;
/// Feature anti bot enabled.
pub const FEATURE_ANTI_BOT_ENABLED: u64 = 128;
/// Feature social integration enabled.
pub const FEATURE_SOCIAL_INTEGRATION_ENABLED: u64 = 256;
/// Feature analytics enabled.
pub const FEATURE_ANALYTICS_ENABLED: u64 = 512;
/// Default feature set for mainnet
pub const MAINNET_DEFAULT_FEATURES: u64 = 1023;
/// Gradual rollout percentages (in basis points)
pub const BETA_USER_PERCENTAGE: u64 = 1000;
/// Early access percentage.
pub const EARLY_ACCESS_PERCENTAGE: u64 = 2500;
/// Full rollout percentage.
pub const FULL_ROLLOUT_PERCENTAGE: u64 = 10000;
/// - Buffer for future expansion: ~200 bytes
pub const USER_ACCOUNT_SIZE: usize = 1024;
/// - Buffer: ~200 bytes
pub const MINING_STATE_SIZE: usize = 640;
/// - Buffer: ~200 bytes
pub const XP_STATE_SIZE: usize = 640;
/// - Buffer: ~200 bytes
pub const REFERRAL_STATE_SIZE: usize = 840;
/// - Buffer: ~200 bytes
pub const STAKING_STATE_SIZE: usize = 540;
/// - Buffer: ~300 bytes
pub const GUILD_ACCOUNT_SIZE: usize = 2458;
/// - Buffer: ~200 bytes
pub const NFT_COLLECTION_SIZE: usize = 658;
/// - Buffer: ~100 bytes
pub const SPECIAL_CARD_SIZE: usize = 440;
/// - Buffer: ~200 bytes
pub const PROPOSAL_ACCOUNT_SIZE: usize = 1058;
/// - Buffer: ~50 bytes
pub const VOTE_RECORD_SIZE: usize = 180;
/// - Buffer: ~400 bytes
pub const GLOBAL_STATE_SIZE: usize = 1008;
/// - Buffer: ~200 bytes
pub const ANALYTICS_ACCOUNT_SIZE: usize = 1158;

} // verus!
