//! Experience points: XP for social activity with daily limits, streaks, levels, tiers and
//! achievements; bonus XP, daily resets and XP booster cards.
use vstd::prelude::*;

use crate::core_state::{
    Achievement, BonusXPRecord, BonusXPType, EngagementMetrics, MiningAccount, RewardsAccount, SocialPlatform, XPAccount,
    XPActivityType, XPBoosterType, XPTier,
};
use crate::errors::FinovaError;
use crate::merkle::bytes32_eq;

verus! {

/// Most posts per day.
pub const MAX_DAILY_POSTS: u32 = 20;
/// Most comments per day.
pub const MAX_DAILY_COMMENTS: u32 = 100;
/// Most likes per day.
pub const MAX_DAILY_LIKES: u32 = 200;
/// Most shares per day.
pub const MAX_DAILY_SHARES: u32 = 50;
/// Most follows per day.
pub const MAX_DAILY_FOLLOWS: u32 = 25;
/// $FIN granted per level gained.
pub const LEVEL_UP_REWARD_BASE: u64 = 100;
/// Activities remembered to refuse duplicates.
pub const MAX_RECENT_ACTIVITIES: usize = 100;
/// Largest bonus XP grant.
pub const MAX_BONUS_XP: u64 = 10000;
/// Longest reason of a bonus XP grant, in bytes.
pub const MAX_REASON_LENGTH: usize = 256;
/// Bonus XP grants remembered.
pub const MAX_BONUS_HISTORY: usize = 50;
/// Longest booster, in hours.
pub const MAX_BOOSTER_DURATION_HOURS: u32 = 168;
/// Most XP one activity can earn (all multipliers at their maximum).
pub const MAX_ACTIVITY_XP: u64 = 16_800_000;

/// The XP an activity is worth before multipliers.
pub open spec fn spec_base_xp(a: XPActivityType) -> u64 {
    match a {
        XPActivityType::OriginalPost => 50,
        XPActivityType::PhotoImagePost => 75,
        XPActivityType::VideoContent => 150,
        XPActivityType::StoryStatus => 25,
        XPActivityType::MeaningfulComment => 25,
        XPActivityType::LikeReact => 5,
        XPActivityType::ShareRepost => 15,
        XPActivityType::FollowSubscribe => 20,
        XPActivityType::DailyLogin => 10,
        XPActivityType::CompleteDailyQuest => 100,
        XPActivityType::AchieveMilestone => 500,
        XPActivityType::ViralContent => 1000,
    }
}

/// The XP multiplier of a platform, in percent.
pub open spec fn spec_platform_multiplier(p: SocialPlatform) -> u64 {
    match p {
        SocialPlatform::TikTok => 130,
        SocialPlatform::Instagram => 120,
        SocialPlatform::YouTube => 140,
        SocialPlatform::Facebook => 110,
        SocialPlatform::TwitterX => 120,
        SocialPlatform::App => 100,
    }
}

/// The XP multiplier of a streak of `streak_days` days, in percent.
pub open spec fn spec_streak_multiplier(streak_days: u32) -> u64 {
    if streak_days <= 6 {
        100
    } else if streak_days <= 13 {
        110
    } else if streak_days <= 29 {
        125
    } else if streak_days <= 59 {
        150
    } else if streak_days <= 99 {
        200
    } else if streak_days <= 199 {
        250
    } else {
        300
    }
}

/// The level reached with `total_xp` XP (differences taken as 32-bit values, as stored).
pub open spec fn spec_level_from_xp(total_xp: u64) -> u32 {
    if total_xp <= 999 {
        ((total_xp as u32) / 100 + 1) as u32
    } else if total_xp <= 4999 {
        (10 + ((total_xp - 1000) as u32) / 266 + 1) as u32
    } else if total_xp <= 19999 {
        (25 + ((total_xp - 5000) as u32) / 600 + 1) as u32
    } else if total_xp <= 49999 {
        (50 + ((total_xp - 20000) as u32) / 1200 + 1) as u32
    } else if total_xp <= 99999 {
        (75 + ((total_xp - 50000) as u32) / 2000 + 1) as u32
    } else {
        (100 + ((total_xp - 100000) as u32) / 5000 + 1) as u32
    }
}

/// The tier of a level (level 0 counts as Mythic).
pub open spec fn spec_level_tier(level: u32) -> XPTier {
    if 1 <= level <= 10 {
        XPTier::Bronze
    } else if 11 <= level <= 25 {
        XPTier::Silver
    } else if 26 <= level <= 50 {
        XPTier::Gold
    } else if 51 <= level <= 75 {
        XPTier::Platinum
    } else if 76 <= level <= 100 {
        XPTier::Diamond
    } else {
        XPTier::Mythic
    }
}

/// The mining multiplier of a level, in percent, capped at 500.
pub open spec fn spec_level_mining_multiplier(level: u32) -> u64 {
    let m = if level <= 10 {
        100 + level * 2
    } else if level <= 25 {
        130 + (level - 10) * 3
    } else if level <= 50 {
        190 + (level - 25) * 2
    } else if level <= 75 {
        260 + (level - 50) * 2
    } else if level <= 100 {
        330 + (level - 75) * 2
    } else {
        410 + (level - 100)
    };
    if m < 500 { m as u64 } else { 500 }
}

/// The $FIN reward for reaching a tier.
pub open spec fn spec_tier_reward(tier: XPTier) -> u64 {
    match tier {
        XPTier::Bronze => 100,
        XPTier::Silver => 500,
        XPTier::Gold => 2000,
        XPTier::Platinum => 5000,
        XPTier::Diamond => 15000,
        XPTier::Mythic => 50000,
    }
}

/// The day (since the Unix epoch, rounded towards zero) that second `now` falls in.
pub open spec fn spec_day(now: i64) -> i64 {
    (if now >= 0 { now as int / 86400 } else { -((-now) / 86400) }) as i64
}

/// Whether the activity is a post.
pub open spec fn is_post(a: XPActivityType) -> bool {
    a == XPActivityType::OriginalPost || a == XPActivityType::PhotoImagePost || a == XPActivityType::VideoContent
}

/// The daily counters (posts, comments, likes, shares, follows) on day `day`, after the reset
/// that a new day brings.
pub open spec fn counters_on(x: XPAccount, day: i64) -> (u32, u32, u32, u32, u32) {
    if x.last_activity_day != day {
        (0, 0, 0, 0, 0)
    } else {
        (x.daily_posts, x.daily_comments, x.daily_likes, x.daily_shares, x.daily_follows)
    }
}

/// Whether the day's counter of the activity's kind is below its limit.
pub open spec fn within_daily_limit(c: (u32, u32, u32, u32, u32), a: XPActivityType) -> bool {
    if is_post(a) {
        c.0 < MAX_DAILY_POSTS
    } else if a == XPActivityType::MeaningfulComment {
        c.1 < MAX_DAILY_COMMENTS
    } else if a == XPActivityType::LikeReact {
        c.2 < MAX_DAILY_LIKES
    } else if a == XPActivityType::ShareRepost {
        c.3 < MAX_DAILY_SHARES
    } else if a == XPActivityType::FollowSubscribe {
        c.4 < MAX_DAILY_FOLLOWS
    } else {
        true
    }
}

/// The counters after counting the activity.
pub open spec fn counted(c: (u32, u32, u32, u32, u32), a: XPActivityType) -> (u32, u32, u32, u32, u32) {
    if is_post(a) {
        ((c.0 + 1) as u32, c.1, c.2, c.3, c.4)
    } else if a == XPActivityType::MeaningfulComment {
        (c.0, (c.1 + 1) as u32, c.2, c.3, c.4)
    } else if a == XPActivityType::LikeReact {
        (c.0, c.1, (c.2 + 1) as u32, c.3, c.4)
    } else if a == XPActivityType::ShareRepost {
        (c.0, c.1, c.2, (c.3 + 1) as u32, c.4)
    } else if a == XPActivityType::FollowSubscribe {
        (c.0, c.1, c.2, c.3, (c.4 + 1) as u32)
    } else {
        c
    }
}

/// Whether an activity at time `now` extends the streak by a day (it comes between 23 and 48
/// hours after the last one).
pub open spec fn streak_grows(x: XPAccount, now: i64) -> bool {
    82800 <= now - x.last_activity_timestamp <= 172800
}

/// The streak, longest streak and streak multiplier after an activity at time `now`: an
/// activity within 48 hours keeps the streak (extending it after 23 hours), a later one starts
/// a new streak.
pub open spec fn streak_after(x: XPAccount, now: i64) -> (u32, u32, u64) {
    let gap = now - x.last_activity_timestamp;
    if gap <= 172800 {
        let s = if gap >= 82800 { (x.current_streak + 1) as u32 } else { x.current_streak };
        let l = if gap >= 82800 && s > x.longest_streak { s } else { x.longest_streak };
        (s, l, spec_streak_multiplier(s))
    } else {
        (1, x.longest_streak, 100)
    }
}

/// The viral multiplier of an activity's reach, in percent.
pub open spec fn spec_viral_multiplier(m: EngagementMetrics) -> u64 {
    if m.views >= 1000 || m.likes >= 100 || m.shares >= 50 { 200 } else { 100 }
}

/// The XP an activity earns: its base XP times the platform, quality, streak, level and
/// viral multipliers (each in percent).
pub open spec fn earned_xp(
    x: XPAccount,
    a: XPActivityType,
    p: SocialPlatform,
    m: EngagementMetrics,
    quality_score: u16,
    level_progression: u64,
    now: i64,
) -> u64 {
    (spec_base_xp(a) * spec_platform_multiplier(p) * quality_score * streak_after(x, now).2 * level_progression
        * spec_viral_multiplier(m) / 100_000_000) as u64
}

/// The achievements after an activity with reach `m`, given the streak and total likes after
/// it.
pub open spec fn achievements_after(achs: Seq<Achievement>, m: EngagementMetrics, streak: u32, total_likes: u64) -> Seq<Achievement> {
    let a1 = if m.views >= 10000 && !achs.contains(Achievement::ViralCreator) { achs.push(Achievement::ViralCreator) } else { achs };
    let a2 = if streak >= 30 && !a1.contains(Achievement::ConsistentCreator) { a1.push(Achievement::ConsistentCreator) } else { a1 };
    if total_likes >= 10000 && !a2.contains(Achievement::EngagementMaster) { a2.push(Achievement::EngagementMaster) } else { a2 }
}

/// The recent activities after remembering `hash`, forgetting the oldest of a full window.
pub open spec fn remembered(recent: Seq<[u8; 32]>, hash: [u8; 32]) -> Seq<[u8; 32]> {
    (if recent.len() >= MAX_RECENT_ACTIVITIES { recent.drop_first() } else { recent }).push(hash)
}

/// The checks of an XP update that can refuse it: a repeated activity, a quality score out of
/// 50..=200, a daily limit reached.
pub open spec fn xp_update_check(x: XPAccount, a: XPActivityType, content_hash: [u8; 32], quality_score: u16, now: i64) -> Result<(), FinovaError> {
    if x.recent_activities@.contains(content_hash) {
        Err(FinovaError::DuplicateActivity)
    } else if !(50 <= quality_score <= 200) {
        Err(FinovaError::InvalidQualityScore)
    } else if !within_daily_limit(counters_on(x, spec_day(now)), a) {
        Err(FinovaError::DailyLimitExceeded)
    } else {
        Ok(())
    }
}

/// The reward for the levels gained by reaching `total_xp` from level `level`.
pub open spec fn level_up_reward(level: u32, total_xp: u64) -> int {
    let n = spec_level_from_xp(total_xp);
    if n > level { (n - level) * LEVEL_UP_REWARD_BASE } else { 0 }
}

/// The level after reaching `total_xp` from level `level` (levels are never lost).
pub open spec fn level_after(level: u32, total_xp: u64) -> u32 {
    let n = spec_level_from_xp(total_xp);
    if n > level { n } else { level }
}

/// The reward for a tier change.
pub open spec fn tier_change_reward(tier: XPTier, level: u32) -> int {
    if spec_level_tier(level) != tier { spec_tier_reward(spec_level_tier(level)) as int } else { 0 }
}

/// No counter or total overflows when an accepted activity is recorded.
pub open spec fn xp_update_fits(
    x: XPAccount,
    rewards: RewardsAccount,
    a: XPActivityType,
    p: SocialPlatform,
    m: EngagementMetrics,
    quality_score: u16,
    level_progression: u64,
    now: i64,
) -> bool {
    let total = x.total_xp + earned_xp(x, a, p, m, quality_score, level_progression, now);
    &&& i64::MIN <= now - x.last_activity_timestamp <= i64::MAX
    &&& streak_grows(x, now) ==> x.current_streak < u32::MAX
    &&& total <= u64::MAX
    &&& x.activities_count < u64::MAX
    &&& is_post(a) ==> x.total_posts < u64::MAX
    &&& a == XPActivityType::MeaningfulComment ==> x.total_comments < u64::MAX
    &&& x.total_likes + m.likes <= u64::MAX
    &&& x.total_shares + m.shares <= u64::MAX
    &&& x.total_views + m.views <= u64::MAX
    &&& rewards.pending_fin_rewards + level_up_reward(x.current_level, total as u64) + tier_change_reward(
        x.current_tier,
        level_after(x.current_level, total as u64),
    ) <= u64::MAX
}

/// The XP an activity is worth before multipliers.
pub fn base_xp(activity_type: XPActivityType) -> (xp: u64)
    ensures
        xp == spec_base_xp(activity_type),
{
    match activity_type {
        XPActivityType::OriginalPost => 50,
        XPActivityType::PhotoImagePost => 75,
        XPActivityType::VideoContent => 150,
        XPActivityType::StoryStatus => 25,
        XPActivityType::MeaningfulComment => 25,
        XPActivityType::LikeReact => 5,
        XPActivityType::ShareRepost => 15,
        XPActivityType::FollowSubscribe => 20,
        XPActivityType::DailyLogin => 10,
        XPActivityType::CompleteDailyQuest => 100,
        XPActivityType::AchieveMilestone => 500,
        XPActivityType::ViralContent => 1000,
    }
}

/// The XP multiplier of a platform, in percent.
pub fn platform_multiplier(platform: SocialPlatform) -> (m: u64)
    ensures
        m == spec_platform_multiplier(platform),
{
    match platform {
        SocialPlatform::TikTok => 130,
        SocialPlatform::Instagram => 120,
        SocialPlatform::YouTube => 140,
        SocialPlatform::Facebook => 110,
        SocialPlatform::TwitterX => 120,
        SocialPlatform::App => 100,
    }
}

/// The XP multiplier of a streak of `streak_days` days, in percent.
pub fn calculate_streak_multiplier(streak_days: u32) -> (m: u64)
    ensures
        m == spec_streak_multiplier(streak_days),
{
    if streak_days <= 6 {
        100
    } else if streak_days <= 13 {
        110
    } else if streak_days <= 29 {
        125
    } else if streak_days <= 59 {
        150
    } else if streak_days <= 99 {
        200
    } else if streak_days <= 199 {
        250
    } else {
        300
    }
}

/// The level reached with `total_xp` XP.
pub fn calculate_level_from_xp(total_xp: u64) -> (level: u32)
    ensures
        level == spec_level_from_xp(total_xp),
{
    if total_xp <= 999 {
        total_xp as u32 / 100 + 1
    } else if total_xp <= 4999 {
        10 + (total_xp - 1000) as u32 / 266 + 1
    } else if total_xp <= 19999 {
        25 + (total_xp - 5000) as u32 / 600 + 1
    } else if total_xp <= 49999 {
        50 + (total_xp - 20000) as u32 / 1200 + 1
    } else if total_xp <= 99999 {
        75 + (total_xp - 50000) as u32 / 2000 + 1
    } else {
        100 + (total_xp - 100000) as u32 / 5000 + 1
    }
}

/// The tier of a level.
pub fn calculate_xp_tier(level: u32) -> (tier: XPTier)
    ensures
        tier == spec_level_tier(level),
{
    if 1 <= level && level <= 10 {
        XPTier::Bronze
    } else if 11 <= level && level <= 25 {
        XPTier::Silver
    } else if 26 <= level && level <= 50 {
        XPTier::Gold
    } else if 51 <= level && level <= 75 {
        XPTier::Platinum
    } else if 76 <= level && level <= 100 {
        XPTier::Diamond
    } else {
        XPTier::Mythic
    }
}

/// The mining multiplier of a level, in percent, at most 500; level 0 has none.
pub fn calculate_xp_mining_multiplier(level: u32) -> (m: u64)
    requires
        level >= 1,
    ensures
        m == spec_level_mining_multiplier(level),
{
    let l = level as u64;
    let m: u64 = if level <= 10 {
        100 + l * 2
    } else if level <= 25 {
        130 + (l - 10) * 3
    } else if level <= 50 {
        190 + (l - 25) * 2
    } else if level <= 75 {
        260 + (l - 50) * 2
    } else if level <= 100 {
        330 + (l - 75) * 2
    } else {
        410 + (l - 100)
    };
    if m < 500 { m } else { 500 }
}

/// The $FIN reward for reaching a tier.
pub fn calculate_tier_reward(tier: XPTier) -> (reward: u64)
    ensures
        reward == spec_tier_reward(tier),
{
    match tier {
        XPTier::Bronze => 100,
        XPTier::Silver => 500,
        XPTier::Gold => 2000,
        XPTier::Platinum => 5000,
        XPTier::Diamond => 15000,
        XPTier::Mythic => 50000,
    }
}

/// Whether `a` is among `achs`.
fn has_achievement(achs: &Vec<Achievement>, a: Achievement) -> (r: bool)
    ensures
        r == achs@.contains(a),
{
    let mut i: usize = 0;
    while i < achs.len()
        invariant
            i <= achs@.len(),
            forall|j: int| 0 <= j < i ==> achs@[j] != a,
        decreases achs.len() - i,
    {
        if achs[i] == a {
            return true;
        }
        i = i + 1;
    }
    false
}

/// Unlocks the achievements earned: viral reach (10,000 views), a 30-day streak and 10,000
/// likes in all; each is unlocked once.
pub fn check_and_update_achievements(xp_account: &mut XPAccount, engagement_metrics: &EngagementMetrics, timestamp: i64) -> (res: Result<
    (),
    FinovaError,
>)
    ensures
        res is Ok,
        final(xp_account).achievements@ == achievements_after(
            old(xp_account).achievements@,
            *engagement_metrics,
            old(xp_account).current_streak,
            old(xp_account).total_likes,
        ),
        *final(xp_account) == (XPAccount { achievements: final(xp_account).achievements, ..*old(xp_account) }),
{
    if engagement_metrics.views >= 10000 && !has_achievement(&xp_account.achievements, Achievement::ViralCreator) {
        xp_account.achievements.push(Achievement::ViralCreator);
    }
    if xp_account.current_streak >= 30 && !has_achievement(&xp_account.achievements, Achievement::ConsistentCreator) {
        xp_account.achievements.push(Achievement::ConsistentCreator);
    }
    if xp_account.total_likes >= 10000 && !has_achievement(&xp_account.achievements, Achievement::EngagementMaster) {
        xp_account.achievements.push(Achievement::EngagementMaster);
    }
    Ok(())
}

/// Whether the XP oracle vouched for the activity: every activity is accepted.
pub fn is_valid_oracle_signature(oracle: &[u8; 32], content_hash: &[u8; 32]) -> (res: Result<bool, FinovaError>)
    ensures
        res == Ok::<bool, FinovaError>(true),
{
    Ok(true)
}

/// Whether `owner` holds the booster card: every owner is accepted.
pub fn validate_nft_ownership(nft_account: &[u8; 32], owner: &[u8; 32]) -> (res: Result<bool, FinovaError>)
    ensures
        res == Ok::<bool, FinovaError>(true),
{
    Ok(true)
}

/// Two XP accounts agree except for the daily counters and their day.
pub open spec fn same_but_daily(a: XPAccount, b: XPAccount) -> bool {
    &&& a.authority == b.authority
    &&& a.total_xp == b.total_xp
    &&& a.current_level == b.current_level
    &&& a.current_tier == b.current_tier
    &&& a.recent_activities@ == b.recent_activities@
    &&& a.last_activity_timestamp == b.last_activity_timestamp
    &&& a.current_streak == b.current_streak
    &&& a.longest_streak == b.longest_streak
    &&& a.activities_count == b.activities_count
    &&& a.total_posts == b.total_posts
    &&& a.total_comments == b.total_comments
    &&& a.total_likes == b.total_likes
    &&& a.total_shares == b.total_shares
    &&& a.total_views == b.total_views
    &&& a.achievements@ == b.achievements@
    &&& a.bonus_history@ == b.bonus_history@
    &&& a.active_booster_type == b.active_booster_type
    &&& a.active_booster_expiry == b.active_booster_expiry
    &&& a.boosters_used == b.boosters_used
    &&& a.bump == b.bump
}

/// The daily counters and their day.
pub open spec fn daily_state(x: XPAccount) -> (i64, (u32, u32, u32, u32, u32)) {
    (x.last_activity_day, (x.daily_posts, x.daily_comments, x.daily_likes, x.daily_shares, x.daily_follows))
}

/// Whether `hash` is among `recent`.
fn seen_recently(recent: &Vec<[u8; 32]>, hash: &[u8; 32]) -> (r: bool)
    ensures
        r == recent@.contains(*hash),
{
    let mut i: usize = 0;
    while i < recent.len()
        invariant
            i <= recent@.len(),
            forall|j: int| 0 <= j < i ==> recent@[j] != *hash,
        decreases recent.len() - i,
    {
        if bytes32_eq(&recent[i], hash) {
            return true;
        }
        i = i + 1;
    }
    false
}

/// Counts an activity at time `now` against the day's limit of its kind, starting new
/// counters on a new day.
pub fn count_daily_activity(xp_account: &mut XPAccount, activity_type: XPActivityType, now: i64) -> (res: Result<(), FinovaError>)
    ensures
        same_but_daily(*final(xp_account), *old(xp_account)),
        within_daily_limit(counters_on(*old(xp_account), spec_day(now)), activity_type) ==> res is Ok && daily_state(
            *final(xp_account),
        ) == (spec_day(now), counted(counters_on(*old(xp_account), spec_day(now)), activity_type)),
        !within_daily_limit(counters_on(*old(xp_account), spec_day(now)), activity_type) ==> res == Err::<(), FinovaError>(
            FinovaError::DailyLimitExceeded,
        ) && daily_state(*final(xp_account)) == (spec_day(now), counters_on(*old(xp_account), spec_day(now))),
{
    let current_day = now / 86400;
    assert(current_day == spec_day(now));
    if xp_account.last_activity_day != current_day {
        xp_account.daily_posts = 0;
        xp_account.daily_comments = 0;
        xp_account.daily_likes = 0;
        xp_account.daily_shares = 0;
        xp_account.daily_follows = 0;
        xp_account.last_activity_day = current_day;
    }
    if activity_type == XPActivityType::OriginalPost || activity_type == XPActivityType::PhotoImagePost
        || activity_type == XPActivityType::VideoContent {
        if xp_account.daily_posts >= MAX_DAILY_POSTS {
            return Err(FinovaError::DailyLimitExceeded);
        }
        xp_account.daily_posts = xp_account.daily_posts + 1;
    } else if activity_type == XPActivityType::MeaningfulComment {
        if xp_account.daily_comments >= MAX_DAILY_COMMENTS {
            return Err(FinovaError::DailyLimitExceeded);
        }
        xp_account.daily_comments = xp_account.daily_comments + 1;
    } else if activity_type == XPActivityType::LikeReact {
        if xp_account.daily_likes >= MAX_DAILY_LIKES {
            return Err(FinovaError::DailyLimitExceeded);
        }
        xp_account.daily_likes = xp_account.daily_likes + 1;
    } else if activity_type == XPActivityType::ShareRepost {
        if xp_account.daily_shares >= MAX_DAILY_SHARES {
            return Err(FinovaError::DailyLimitExceeded);
        }
        xp_account.daily_shares = xp_account.daily_shares + 1;
    } else if activity_type == XPActivityType::FollowSubscribe {
        if xp_account.daily_follows >= MAX_DAILY_FOLLOWS {
            return Err(FinovaError::DailyLimitExceeded);
        }
        xp_account.daily_follows = xp_account.daily_follows + 1;
    }
    Ok(())
}

/// Updates the streak for an activity at time `now` and returns its multiplier.
pub fn advance_streak(xp_account: &mut XPAccount, now: i64) -> (multiplier: u64)
    requires
        i64::MIN <= now - old(xp_account).last_activity_timestamp <= i64::MAX,
        streak_grows(*old(xp_account), now) ==> old(xp_account).current_streak < u32::MAX,
    ensures
        ({
            let (s, l, m) = streak_after(*old(xp_account), now);
            &&& multiplier == m
            &&& *final(xp_account) == (XPAccount { current_streak: s, longest_streak: l, ..*old(xp_account) })
        }),
{
    let gap = now - xp_account.last_activity_timestamp;
    if gap <= 172800 {
        if gap >= 82800 {
            xp_account.current_streak = xp_account.current_streak + 1;
            if xp_account.current_streak > xp_account.longest_streak {
                xp_account.longest_streak = xp_account.current_streak;
            }
        }
        calculate_streak_multiplier(xp_account.current_streak)
    } else {
        xp_account.current_streak = 1;
        100
    }
}

/// The viral multiplier of an activity's reach, in percent.
pub fn viral_multiplier_of(engagement_metrics: &EngagementMetrics) -> (m: u64)
    ensures
        m == spec_viral_multiplier(*engagement_metrics),
{
    if engagement_metrics.views >= 1000 || engagement_metrics.likes >= 100 || engagement_metrics.shares >= 50 {
        200
    } else {
        100
    }
}

/// The XP of an activity: the product of its base XP and multipliers (in percent).
pub fn activity_xp(base: u64, platform_mult: u64, quality_score: u16, streak_bonus: u64, level_progression: u64, viral: u64) -> (xp: u64)
    requires
        base <= 1000,
        platform_mult <= 140,
        quality_score <= 200,
        streak_bonus <= 300,
        level_progression <= 100,
        viral <= 200,
    ensures
        xp == base * platform_mult * quality_score * streak_bonus * level_progression * viral / 100_000_000,
        xp <= MAX_ACTIVITY_XP,
{
    let q = quality_score as u64;
    assert(base * platform_mult <= 1000 * 140) by (nonlinear_arith)
        requires
            base <= 1000,
            platform_mult <= 140,
    ;
    let p1 = base * platform_mult;
    assert(p1 * q <= 140000 * 200) by (nonlinear_arith)
        requires
            p1 <= 140000,
            q <= 200,
    ;
    let p2 = p1 * q;
    assert(p2 * streak_bonus <= 28000000 * 300) by (nonlinear_arith)
        requires
            p2 <= 28000000,
            streak_bonus <= 300,
    ;
    let p3 = p2 * streak_bonus;
    assert(p3 * level_progression <= 8400000000 * 100) by (nonlinear_arith)
        requires
            p3 <= 8400000000,
            level_progression <= 100,
    ;
    let p4 = p3 * level_progression;
    assert(p4 * viral <= 840000000000 * 200) by (nonlinear_arith)
        requires
            p4 <= 840000000000,
            viral <= 200,
    ;
    p4 * viral / 100_000_000
}

/// Adds an activity's XP and reach to the totals at time `now` and remembers it.
pub fn record_activity(
    xp_account: &mut XPAccount,
    activity_type: XPActivityType,
    content_hash: [u8; 32],
    engagement_metrics: &EngagementMetrics,
    final_xp: u64,
    now: i64,
)
    requires
        old(xp_account).total_xp + final_xp <= u64::MAX,
        old(xp_account).activities_count < u64::MAX,
        is_post(activity_type) ==> old(xp_account).total_posts < u64::MAX,
        activity_type == XPActivityType::MeaningfulComment ==> old(xp_account).total_comments < u64::MAX,
        old(xp_account).total_likes + engagement_metrics.likes <= u64::MAX,
        old(xp_account).total_shares + engagement_metrics.shares <= u64::MAX,
        old(xp_account).total_views + engagement_metrics.views <= u64::MAX,
    ensures
        ({
            let x = *old(xp_account);
            let f = *final(xp_account);
            &&& f.total_xp == x.total_xp + final_xp
            &&& f.last_activity_timestamp == now
            &&& f.activities_count == x.activities_count + 1
            &&& f.recent_activities@ == remembered(x.recent_activities@, content_hash)
            &&& f.total_posts == x.total_posts + (if is_post(activity_type) { 1int } else { 0int })
            &&& f.total_comments == x.total_comments + (if activity_type == XPActivityType::MeaningfulComment { 1int } else { 0int })
            &&& f.total_likes == x.total_likes + engagement_metrics.likes
            &&& f.total_shares == x.total_shares + engagement_metrics.shares
            &&& f.total_views == x.total_views + engagement_metrics.views
            &&& f == (XPAccount {
                total_xp: f.total_xp,
                last_activity_timestamp: f.last_activity_timestamp,
                activities_count: f.activities_count,
                recent_activities: f.recent_activities,
                total_posts: f.total_posts,
                total_comments: f.total_comments,
                total_likes: f.total_likes,
                total_shares: f.total_shares,
                total_views: f.total_views,
                ..x
            })
        }),
{
    let ghost before = xp_account.recent_activities@;
    xp_account.total_xp = xp_account.total_xp + final_xp;
    xp_account.last_activity_timestamp = now;
    xp_account.activities_count = xp_account.activities_count + 1;
    if xp_account.recent_activities.len() >= MAX_RECENT_ACTIVITIES {
        xp_account.recent_activities.remove(0);
        assert(xp_account.recent_activities@ =~= before.drop_first());
    }
    xp_account.recent_activities.push(content_hash);
    if activity_type == XPActivityType::OriginalPost || activity_type == XPActivityType::PhotoImagePost
        || activity_type == XPActivityType::VideoContent {
        xp_account.total_posts = xp_account.total_posts + 1;
    }
    if activity_type == XPActivityType::MeaningfulComment {
        xp_account.total_comments = xp_account.total_comments + 1;
    }
    xp_account.total_likes = xp_account.total_likes + engagement_metrics.likes;
    xp_account.total_shares = xp_account.total_shares + engagement_metrics.shares;
    xp_account.total_views = xp_account.total_views + engagement_metrics.views;
}

/// Raises the level to the one the total XP reaches (paying the level-up reward and setting
/// the mining multiplier) and moves the tier to the level's (paying the tier reward).
pub fn apply_level_and_tier(xp_account: &mut XPAccount, mining_account: &mut MiningAccount, rewards_account: &mut RewardsAccount)
    requires
        old(rewards_account).pending_fin_rewards + level_up_reward(old(xp_account).current_level, old(xp_account).total_xp)
            + tier_change_reward(old(xp_account).current_tier, level_after(old(xp_account).current_level, old(xp_account).total_xp))
            <= u64::MAX,
    ensures
        ({
            let x = *old(xp_account);
            let level = level_after(x.current_level, x.total_xp);
            let tier = if spec_level_tier(level) != x.current_tier { spec_level_tier(level) } else { x.current_tier };
            &&& *final(xp_account) == (XPAccount { current_level: level, current_tier: tier, ..x })
            &&& final(mining_account).xp_multiplier == (if level > x.current_level {
                spec_level_mining_multiplier(level)
            } else {
                old(mining_account).xp_multiplier
            })
            &&& final(rewards_account).pending_fin_rewards == old(rewards_account).pending_fin_rewards + level_up_reward(
                x.current_level,
                x.total_xp,
            ) + tier_change_reward(x.current_tier, level)
        }),
{
    let new_level = calculate_level_from_xp(xp_account.total_xp);
    if new_level > xp_account.current_level {
        let level_difference = new_level - xp_account.current_level;
        xp_account.current_level = new_level;
        assert(level_difference * LEVEL_UP_REWARD_BASE <= u32::MAX * 100) by (nonlinear_arith)
            requires
                level_difference <= u32::MAX,
        ;
        let level_up_reward = level_difference as u64 * LEVEL_UP_REWARD_BASE;
        rewards_account.pending_fin_rewards = rewards_account.pending_fin_rewards + level_up_reward;
        mining_account.xp_multiplier = calculate_xp_mining_multiplier(new_level);
    }
    let new_tier = calculate_xp_tier(xp_account.current_level);
    if new_tier != xp_account.current_tier {
        xp_account.current_tier = new_tier;
        let tier_reward = calculate_tier_reward(new_tier);
        rewards_account.pending_fin_rewards = rewards_account.pending_fin_rewards + tier_reward;
    }
}

/// Records a social activity at time `now`: refuses a repeated activity, a quality score
/// outside 50..=200 and activity beyond the day's limit of its kind; otherwise awards XP (base
/// XP times the platform, quality, streak, level progression and viral multipliers), updates
/// the streak, the totals and the remembered activities, raises the level (paying the level-up
/// reward and updating the mining multiplier), the tier (paying its reward) and the
/// achievements. The level progression factor (in percent) is supplied by the caller.
pub fn update_xp(
    xp_account: &mut XPAccount,
    mining_account: &mut MiningAccount,
    rewards_account: &mut RewardsAccount,
    xp_oracle: &[u8; 32],
    activity_type: XPActivityType,
    platform: SocialPlatform,
    content_hash: [u8; 32],
    engagement_metrics: EngagementMetrics,
    quality_score: u16,
    level_progression: u64,
    now: i64,
) -> (res: Result<(), FinovaError>)
    requires
        level_progression <= 100,
        xp_update_check(*old(xp_account), activity_type, content_hash, quality_score, now) is Ok ==> xp_update_fits(
            *old(xp_account),
            *old(rewards_account),
            activity_type,
            platform,
            engagement_metrics,
            quality_score,
            level_progression,
            now,
        ),
    ensures
        ({
            let x = *old(xp_account);
            let day = spec_day(now);
            match xp_update_check(x, activity_type, content_hash, quality_score, now) {
                Err(e) => {
                    &&& res == Err::<(), FinovaError>(e)
                    &&& *final(mining_account) == *old(mining_account)
                    &&& *final(rewards_account) == *old(rewards_account)
                    &&& same_but_daily(*final(xp_account), x)
                    &&& (e == FinovaError::DailyLimitExceeded ==> daily_state(*final(xp_account)) == (day, counters_on(x, day)))
                    &&& (e != FinovaError::DailyLimitExceeded ==> daily_state(*final(xp_account)) == daily_state(x))
                },
                Ok(_) => {
                    let (streak, longest, _) = streak_after(x, now);
                    let total = (x.total_xp + earned_xp(x, activity_type, platform, engagement_metrics, quality_score,
                        level_progression, now)) as u64;
                    let level = level_after(x.current_level, total);
                    let likes = (x.total_likes + engagement_metrics.likes) as u64;
                    let f = *final(xp_account);
                    &&& res is Ok
                    &&& daily_state(f) == (day, counted(counters_on(x, day), activity_type))
                    &&& f.current_streak == streak
                    &&& f.longest_streak == longest
                    &&& f.total_xp == total
                    &&& f.last_activity_timestamp == now
                    &&& f.activities_count == x.activities_count + 1
                    &&& f.recent_activities@ == remembered(x.recent_activities@, content_hash)
                    &&& f.total_posts == x.total_posts + (if is_post(activity_type) { 1int } else { 0int })
                    &&& f.total_comments == x.total_comments + (if activity_type == XPActivityType::MeaningfulComment { 1int } else { 0int })
                    &&& f.total_likes == likes
                    &&& f.total_shares == x.total_shares + engagement_metrics.shares
                    &&& f.total_views == x.total_views + engagement_metrics.views
                    &&& f.current_level == level
                    &&& f.current_tier == (if spec_level_tier(level) != x.current_tier { spec_level_tier(level) } else { x.current_tier })
                    &&& final(mining_account).xp_multiplier == (if level > x.current_level {
                        spec_level_mining_multiplier(level)
                    } else {
                        old(mining_account).xp_multiplier
                    })
                    &&& final(rewards_account).pending_fin_rewards == old(rewards_account).pending_fin_rewards
                        + level_up_reward(x.current_level, total) + tier_change_reward(x.current_tier, level)
                    &&& f.achievements@ == achievements_after(x.achievements@, engagement_metrics, streak, likes)
                    &&& f.authority == x.authority
                    &&& f.bonus_history@ == x.bonus_history@
                    &&& f.active_booster_type == x.active_booster_type
                    &&& f.active_booster_expiry == x.active_booster_expiry
                    &&& f.boosters_used == x.boosters_used
                    &&& f.bump == x.bump
                },
            }
        }),
{
    let ghost x = *xp_account;
    let oracle_ok = match is_valid_oracle_signature(xp_oracle, &content_hash) {
        Ok(b) => b,
        Err(e) => { return Err(e); },
    };
    if !oracle_ok {
        return Err(FinovaError::InvalidSignature);
    }
    if seen_recently(&xp_account.recent_activities, &content_hash) {
        return Err(FinovaError::DuplicateActivity);
    }
    if !(quality_score >= 50 && quality_score <= 200) {
        return Err(FinovaError::InvalidQualityScore);
    }
    let base = base_xp(activity_type);
    match count_daily_activity(xp_account, activity_type, now) {
        Ok(()) => {},
        Err(e) => { return Err(e); },
    }
    let platform_mult = platform_multiplier(platform);
    let streak_bonus = advance_streak(xp_account, now);
    let viral_multiplier = viral_multiplier_of(&engagement_metrics);
    let final_xp = activity_xp(base, platform_mult, quality_score, streak_bonus, level_progression, viral_multiplier);
    record_activity(xp_account, activity_type, content_hash, &engagement_metrics, final_xp, now);
    apply_level_and_tier(xp_account, mining_account, rewards_account);
    match check_and_update_achievements(xp_account, &engagement_metrics, now) {
        Ok(()) => {},
        Err(e) => { return Err(e); },
    }
    Ok(())
}

/// Grants `bonus_xp` XP at time `now` for the given reason (at most `MAX_BONUS_XP` XP, a
/// reason of at most `MAX_REASON_LENGTH` bytes); a level reached pays the level-up reward, and
/// the grant is remembered among the last `MAX_BONUS_HISTORY`.
pub fn grant_bonus_xp(
    xp_account: &mut XPAccount,
    rewards_account: &mut RewardsAccount,
    bonus_xp: u64,
    bonus_type: BonusXPType,
    reason: &str,
    now: i64,
) -> (res: Result<(), FinovaError>)
    requires
        bonus_xp <= MAX_BONUS_XP && reason.len() <= MAX_REASON_LENGTH ==> {
            &&& old(xp_account).total_xp + bonus_xp <= u64::MAX
            &&& old(rewards_account).pending_fin_rewards + level_up_reward(old(xp_account).current_level, (old(xp_account).total_xp + bonus_xp) as u64) <= u64::MAX
        },
    ensures
        bonus_xp > MAX_BONUS_XP ==> res == Err::<(), FinovaError>(FinovaError::ExcessiveBonusXP)
            && *final(xp_account) == *old(xp_account) && *final(rewards_account) == *old(rewards_account),
        bonus_xp <= MAX_BONUS_XP && reason.len() > MAX_REASON_LENGTH ==> res == Err::<(), FinovaError>(FinovaError::ReasonTooLong)
            && *final(xp_account) == *old(xp_account) && *final(rewards_account) == *old(rewards_account),
        bonus_xp <= MAX_BONUS_XP && reason.len() <= MAX_REASON_LENGTH ==> {
            let x = *old(xp_account);
            let total = (x.total_xp + bonus_xp) as u64;
            let history = if x.bonus_history@.len() >= MAX_BONUS_HISTORY { x.bonus_history@.drop_first() } else { x.bonus_history@ };
            let f = *final(xp_account);
            &&& res is Ok
            &&& f.total_xp == total
            &&& f.current_level == level_after(x.current_level, total)
            &&& final(rewards_account).pending_fin_rewards == old(rewards_account).pending_fin_rewards + level_up_reward(x.current_level, total)
            &&& f.bonus_history@.len() == history.len() + 1
            &&& f.bonus_history@.drop_last() == history
            &&& f.bonus_history@.last().bonus_type == bonus_type
            &&& f.bonus_history@.last().amount == bonus_xp
            &&& f.bonus_history@.last().timestamp == now
            &&& f.bonus_history@.last().reason@ == reason@
            &&& f == (XPAccount { total_xp: f.total_xp, current_level: f.current_level, bonus_history: f.bonus_history, ..x })
        },
{
    if bonus_xp > MAX_BONUS_XP {
        return Err(FinovaError::ExcessiveBonusXP);
    }
    if reason.len() > MAX_REASON_LENGTH {
        return Err(FinovaError::ReasonTooLong);
    }
    xp_account.total_xp = xp_account.total_xp + bonus_xp;
    let old_level = xp_account.current_level;
    let new_level = calculate_level_from_xp(xp_account.total_xp);
    if new_level > old_level {
        xp_account.current_level = new_level;
        let level_difference = new_level - old_level;
        assert(level_difference * LEVEL_UP_REWARD_BASE <= u32::MAX * 100) by (nonlinear_arith)
            requires
                level_difference <= u32::MAX,
        ;
        let level_up_reward = level_difference as u64 * LEVEL_UP_REWARD_BASE;
        rewards_account.pending_fin_rewards = rewards_account.pending_fin_rewards + level_up_reward;
    }
    let ghost before = xp_account.bonus_history@;
    if xp_account.bonus_history.len() >= MAX_BONUS_HISTORY {
        xp_account.bonus_history.remove(0);
        assert(xp_account.bonus_history@ =~= before.drop_first());
    }
    let ghost kept = xp_account.bonus_history@;
    xp_account.bonus_history.push(BonusXPRecord { bonus_type, amount: bonus_xp, timestamp: now, reason: String::from_str(reason) });
    assert(xp_account.bonus_history@.drop_last() =~= kept);
    Ok(())
}

/// Starts new daily counters once a new day (at time `now`) has begun.
pub fn reset_daily_xp(xp_account: &mut XPAccount, now: i64) -> (res: Result<(), FinovaError>)
    ensures
        res is Ok,
        same_but_daily(*final(xp_account), *old(xp_account)),
        spec_day(now) > old(xp_account).last_activity_day ==> daily_state(*final(xp_account)) == (spec_day(now), (0u32, 0u32, 0u32, 0u32, 0u32)),
        spec_day(now) <= old(xp_account).last_activity_day ==> daily_state(*final(xp_account)) == daily_state(*old(xp_account)),
{
    let current_day = now / 86400;
    assert(current_day == spec_day(now));
    if current_day > xp_account.last_activity_day {
        xp_account.daily_posts = 0;
        xp_account.daily_comments = 0;
        xp_account.daily_likes = 0;
        xp_account.daily_shares = 0;
        xp_account.daily_follows = 0;
        xp_account.last_activity_day = current_day;
    }
    Ok(())
}

/// Activates a booster card for `duration_hours` hours (at most `MAX_BOOSTER_DURATION_HOURS`)
/// at time `now`: a running booster of the same type is extended, any other replaced.
pub fn use_xp_booster(
    xp_account: &mut XPAccount,
    user_authority: &[u8; 32],
    booster_nft: &[u8; 32],
    booster_type: XPBoosterType,
    duration_hours: u32,
    now: i64,
) -> (res: Result<(), FinovaError>)
    requires
        duration_hours <= MAX_BOOSTER_DURATION_HOURS ==> {
            &&& now + duration_hours * 3600 <= i64::MAX
            &&& old(xp_account).active_booster_expiry + duration_hours * 3600 <= i64::MAX
            &&& old(xp_account).boosters_used < u32::MAX
        },
    ensures
        duration_hours > MAX_BOOSTER_DURATION_HOURS ==> res == Err::<(), FinovaError>(FinovaError::InvalidBoosterDuration)
            && *final(xp_account) == *old(xp_account),
        duration_hours <= MAX_BOOSTER_DURATION_HOURS ==> {
            let x = *old(xp_account);
            let extend = x.active_booster_expiry > now && x.active_booster_type == booster_type;
            &&& res is Ok
            &&& *final(xp_account) == (XPAccount {
                active_booster_type: booster_type,
                active_booster_expiry: (if extend {
                    x.active_booster_expiry + duration_hours * 3600
                } else {
                    now + duration_hours * 3600
                }) as i64,
                boosters_used: (x.boosters_used + 1) as u32,
                ..x
            })
        },
{
    let owned = match validate_nft_ownership(booster_nft, user_authority) {
        Ok(b) => b,
        Err(e) => { return Err(e); },
    };
    if !owned {
        return Err(FinovaError::Unauthorized);
    }
    if duration_hours > MAX_BOOSTER_DURATION_HOURS {
        return Err(FinovaError::InvalidBoosterDuration);
    }
    let duration_seconds = duration_hours as i64 * 3600;
    let expiry_timestamp = now + duration_seconds;
    if xp_account.active_booster_expiry > now {
        if xp_account.active_booster_type == booster_type {
            xp_account.active_booster_expiry = xp_account.active_booster_expiry + duration_seconds;
        } else {
            xp_account.active_booster_type = booster_type;
            xp_account.active_booster_expiry = expiry_timestamp;
        }
    } else {
        xp_account.active_booster_type = booster_type;
        xp_account.active_booster_expiry = expiry_timestamp;
    }
    xp_account.boosters_used = xp_account.boosters_used + 1;
    Ok(())
}

/// The position of a tier, Bronze first.
pub open spec fn xp_tier_rank(t: XPTier) -> int {
    match t {
        XPTier::Bronze => 0,
        XPTier::Silver => 1,
        XPTier::Gold => 2,
        XPTier::Platinum => 3,
        XPTier::Diamond => 4,
        XPTier::Mythic => 5,
    }
}

/// More XP never means a lower level, as long as the XP above 100 000 fits the 32 bits in
/// which it is counted.
pub proof fn law_level_monotone(a: u64, b: u64)
    requires
        a <= b,
        b <= 100000 + u32::MAX,
    ensures
        spec_level_from_xp(a) <= spec_level_from_xp(b),
{
}

/// A higher level never means a lower tier (from level 1 on).
pub proof fn law_tier_monotone(a: u32, b: u32)
    requires
        1 <= a <= b,
    ensures
        xp_tier_rank(spec_level_tier(a)) <= xp_tier_rank(spec_level_tier(b)),
{
}

/// A longer streak never means a smaller multiplier.
pub proof fn law_streak_monotone(a: u32, b: u32)
    requires
        a <= b,
    ensures
        spec_streak_multiplier(a) <= spec_streak_multiplier(b),
{
}

/// The product of the multipliers (platform, quality, streak, level progression and reach) that
/// scale an activity's base XP, each in percent.
pub open spec fn xp_multipliers(
    x: XPAccount,
    p: SocialPlatform,
    m: EngagementMetrics,
    quality_score: u16,
    level_progression: u64,
    now: i64,
) -> int {
    spec_platform_multiplier(p) * quality_score * streak_after(x, now).2 * level_progression * spec_viral_multiplier(m)
}

/// `b` XP scaled by the multipliers `k` (each factor in percent), rounded down.
proof fn lemma_scaled_xp(b: int, x: XPAccount, a: XPActivityType, p: SocialPlatform, m: EngagementMetrics, q: u16, lp: u64, now: i64)
    requires
        b == spec_base_xp(a),
        b * xp_multipliers(x, p, m, q, lp, now) / 100_000_000 <= u64::MAX,
    ensures
        earned_xp(x, a, p, m, q, lp, now) == b * xp_multipliers(x, p, m, q, lp, now) / 100_000_000,
{
    let pl = spec_platform_multiplier(p) as int;
    let s = streak_after(x, now).2 as int;
    let v = spec_viral_multiplier(m) as int;
    assert(b * pl * q * s * lp * v == b * (pl * q * s * lp * v)) by (nonlinear_arith);
}

/// Richer content earns more XP: under the same conditions (account, time, platform, reach,
/// quality and level progression) a video earns at least as much as a photo and at least three
/// times as much as a text post, and a photo at least as much as a text post. With every factor
/// at 100 (a 100% platform, quality 100, a 100% streak, level progression 100 and ordinary
/// reach) an activity earns a hundred times its base XP: the base is 50 for a text post, 75 for
/// a photo, 150 for a video, 25 for a story or a comment, 5 for a like, 15 for a share, 20 for a
/// follow, 10 for a daily login, 100 for a daily quest, 500 for a milestone and 1 000 for viral
/// content.
pub proof fn law_video_earns_most(
    x: XPAccount,
    p: SocialPlatform,
    m: EngagementMetrics,
    q: u16,
    lp: u64,
    now: i64,
)
    requires
        150 * xp_multipliers(x, p, m, q, lp, now) / 100_000_000 <= u64::MAX,
    ensures
        ({
            let video = earned_xp(x, XPActivityType::VideoContent, p, m, q, lp, now);
            let photo = earned_xp(x, XPActivityType::PhotoImagePost, p, m, q, lp, now);
            let post = earned_xp(x, XPActivityType::OriginalPost, p, m, q, lp, now);
            &&& video >= photo >= post
            &&& video >= 3 * post
        }),
        xp_multipliers(x, p, m, q, lp, now) == 10_000_000_000 ==> {
            &&& earned_xp(x, XPActivityType::OriginalPost, p, m, q, lp, now) == 5000
            &&& earned_xp(x, XPActivityType::PhotoImagePost, p, m, q, lp, now) == 7500
            &&& earned_xp(x, XPActivityType::VideoContent, p, m, q, lp, now) == 15000
            &&& earned_xp(x, XPActivityType::StoryStatus, p, m, q, lp, now) == 2500
            &&& earned_xp(x, XPActivityType::MeaningfulComment, p, m, q, lp, now) == 2500
            &&& earned_xp(x, XPActivityType::LikeReact, p, m, q, lp, now) == 500
            &&& earned_xp(x, XPActivityType::ShareRepost, p, m, q, lp, now) == 1500
            &&& earned_xp(x, XPActivityType::FollowSubscribe, p, m, q, lp, now) == 2000
            &&& earned_xp(x, XPActivityType::DailyLogin, p, m, q, lp, now) == 1000
            &&& earned_xp(x, XPActivityType::CompleteDailyQuest, p, m, q, lp, now) == 10000
            &&& earned_xp(x, XPActivityType::AchieveMilestone, p, m, q, lp, now) == 50000
            &&& earned_xp(x, XPActivityType::ViralContent, p, m, q, lp, now) == 100000
        },
{
    let k = xp_multipliers(x, p, m, q, lp, now);
    assert(k >= 0) by (nonlinear_arith)
        requires
            k == spec_platform_multiplier(p) * q * streak_after(x, now).2 * lp * spec_viral_multiplier(m),
    ;
    assert(150 * k / 100_000_000 >= 3 * (50 * k / 100_000_000)) by (nonlinear_arith)
        requires
            k >= 0,
    ;
    assert(150 * k / 100_000_000 >= 75 * k / 100_000_000 >= 50 * k / 100_000_000) by (nonlinear_arith)
        requires
            k >= 0,
    ;
    lemma_scaled_xp(150, x, XPActivityType::VideoContent, p, m, q, lp, now);
    lemma_scaled_xp(75, x, XPActivityType::PhotoImagePost, p, m, q, lp, now);
    lemma_scaled_xp(50, x, XPActivityType::OriginalPost, p, m, q, lp, now);
    if k == 10_000_000_000 {
        lemma_scaled_xp(25, x, XPActivityType::StoryStatus, p, m, q, lp, now);
        lemma_scaled_xp(25, x, XPActivityType::MeaningfulComment, p, m, q, lp, now);
        lemma_scaled_xp(5, x, XPActivityType::LikeReact, p, m, q, lp, now);
        lemma_scaled_xp(15, x, XPActivityType::ShareRepost, p, m, q, lp, now);
        lemma_scaled_xp(20, x, XPActivityType::FollowSubscribe, p, m, q, lp, now);
        lemma_scaled_xp(10, x, XPActivityType::DailyLogin, p, m, q, lp, now);
        lemma_scaled_xp(100, x, XPActivityType::CompleteDailyQuest, p, m, q, lp, now);
        lemma_scaled_xp(500, x, XPActivityType::AchieveMilestone, p, m, q, lp, now);
        lemma_scaled_xp(1000, x, XPActivityType::ViralContent, p, m, q, lp, now);
    }
}

/// The streak multiplier rises in steps: 100% for up to 6 days, 110% from 7, 125% from 14,
/// 150% from 30, 200% from 60, 250% from 100 and 300% from 200 days on. (With
/// `law_streak_monotone` this fixes it for every streak: it is constant between these steps.)
pub proof fn law_streak_steps()
    ensures
        spec_streak_multiplier(0) == 100 && spec_streak_multiplier(6) == 100,
        spec_streak_multiplier(7) == 110 && spec_streak_multiplier(13) == 110,
        spec_streak_multiplier(14) == 125 && spec_streak_multiplier(29) == 125,
        spec_streak_multiplier(30) == 150 && spec_streak_multiplier(59) == 150,
        spec_streak_multiplier(60) == 200 && spec_streak_multiplier(99) == 200,
        spec_streak_multiplier(100) == 250 && spec_streak_multiplier(199) == 250,
        spec_streak_multiplier(200) == 300 && spec_streak_multiplier(u32::MAX) == 300,
{
}

/// Tiers follow levels: Bronze for levels 1 to 10, Silver 11 to 25, Gold 26 to 50, Platinum 51
/// to 75, Diamond 76 to 100 and Mythic above. (With `law_tier_monotone` this fixes the tier of
/// every level from 1 on.) Each tier pays a larger reward than the one below it, from 100 $FIN
/// for Bronze to 50 000 for Mythic.
pub proof fn law_tier_steps(t1: XPTier, t2: XPTier)
    ensures
        spec_level_tier(1) == XPTier::Bronze && spec_level_tier(10) == XPTier::Bronze,
        spec_level_tier(11) == XPTier::Silver && spec_level_tier(25) == XPTier::Silver,
        spec_level_tier(26) == XPTier::Gold && spec_level_tier(50) == XPTier::Gold,
        spec_level_tier(51) == XPTier::Platinum && spec_level_tier(75) == XPTier::Platinum,
        spec_level_tier(76) == XPTier::Diamond && spec_level_tier(100) == XPTier::Diamond,
        spec_level_tier(101) == XPTier::Mythic && spec_level_tier(u32::MAX) == XPTier::Mythic,
        xp_tier_rank(t1) < xp_tier_rank(t2) ==> spec_tier_reward(t1) < spec_tier_reward(t2),
        spec_tier_reward(XPTier::Bronze) == 100,
        spec_tier_reward(XPTier::Mythic) == 50000,
{
}

/// Levels follow XP in bands: level 1 at no XP, then one level per 100 XP up to level 10, per
/// 266 XP from 1 000 XP (level 11), per 600 XP from 5 000 (level 26), per 1 200 XP from 20 000
/// (level 51), per 2 000 XP from 50 000 (level 76) and per 5 000 XP from 100 000 (level 101).
pub proof fn law_level_bands(xp: u64)
    ensures
        spec_level_from_xp(0) == 1,
        spec_level_from_xp(1000) == 11,
        spec_level_from_xp(5000) == 26,
        spec_level_from_xp(20000) == 51,
        spec_level_from_xp(50000) == 76,
        spec_level_from_xp(100000) == 101,
        xp + 100 <= 999 ==> spec_level_from_xp((xp + 100) as u64) == spec_level_from_xp(xp) + 1,
        1000 <= xp && xp + 266 <= 4999 ==> spec_level_from_xp((xp + 266) as u64) == spec_level_from_xp(xp) + 1,
        5000 <= xp && xp + 600 <= 19999 ==> spec_level_from_xp((xp + 600) as u64) == spec_level_from_xp(xp) + 1,
        20000 <= xp && xp + 1200 <= 49999 ==> spec_level_from_xp((xp + 1200) as u64) == spec_level_from_xp(xp) + 1,
        50000 <= xp && xp + 2000 <= 99999 ==> spec_level_from_xp((xp + 2000) as u64) == spec_level_from_xp(xp) + 1,
        100000 <= xp && xp + 5000 <= 100000 + 4_000_000_000u64 ==> spec_level_from_xp((xp + 5000) as u64)
            == spec_level_from_xp(xp) + 1,
{
}

/// The mining multiplier grows with the level: 100% at level 0 and 2 points per level to 120%
/// at level 10; from 133% at level 11, 3 points per level to 175% at 25; from 192% at 26, 2
/// points per level to 240% at 50; from 262% at 51 to 310% at 75 and from 332% at 76 to 380% at
/// 100, 2 points per level; from 411% at 101, 1 point per level up to its cap of 500%.
pub proof fn law_mining_multiplier_steps(level: u32)
    ensures
        spec_level_mining_multiplier(level) <= 500,
        spec_level_mining_multiplier(0) == 100 && spec_level_mining_multiplier(10) == 120,
        spec_level_mining_multiplier(11) == 133 && spec_level_mining_multiplier(25) == 175,
        spec_level_mining_multiplier(26) == 192 && spec_level_mining_multiplier(50) == 240,
        spec_level_mining_multiplier(51) == 262 && spec_level_mining_multiplier(75) == 310,
        spec_level_mining_multiplier(76) == 332 && spec_level_mining_multiplier(100) == 380,
        spec_level_mining_multiplier(101) == 411 && spec_level_mining_multiplier(u32::MAX) == 500,
        level < 10 ==> spec_level_mining_multiplier((level + 1) as u32) == spec_level_mining_multiplier(level) + 2,
        11 <= level < 25 ==> spec_level_mining_multiplier((level + 1) as u32) == spec_level_mining_multiplier(level) + 3,
        (26 <= level < 50 || 51 <= level < 75 || 76 <= level < 100) ==> spec_level_mining_multiplier((level + 1) as u32)
            == spec_level_mining_multiplier(level) + 2,
        101 <= level < u32::MAX ==> spec_level_mining_multiplier((level + 1) as u32) == (if spec_level_mining_multiplier(level) < 500 {
            spec_level_mining_multiplier(level) + 1
        } else {
            500
        }),
{
}

/// Where and how well an activity is done weighs on its XP: a text post at quality 100, with a
/// streak multiplier of 100%, level progression 100 and ordinary reach, earns 7 000 XP on
/// YouTube (140%), 6 500 on TikTok (130%), 6 000 on Instagram or X (120%), 5 500 on Facebook
/// (110%) and 5 000 in the app (100%); at quality 200 it earns twice what it earns at quality
/// 100, and content with viral reach (1 000 views, 100 likes or 50 shares) earns twice what the
/// same content earns with ordinary reach.
pub proof fn law_platform_quality_reach(x: XPAccount, ordinary: EngagementMetrics, viral: EngagementMetrics, now: i64)
    requires
        streak_after(x, now).2 == 100,
        ordinary.views < 1000 && ordinary.likes < 100 && ordinary.shares < 50,
        viral.views >= 1000 || viral.likes >= 100 || viral.shares >= 50,
    ensures
        earned_xp(x, XPActivityType::OriginalPost, SocialPlatform::YouTube, ordinary, 100, 100, now) == 7000,
        earned_xp(x, XPActivityType::OriginalPost, SocialPlatform::TikTok, ordinary, 100, 100, now) == 6500,
        earned_xp(x, XPActivityType::OriginalPost, SocialPlatform::Instagram, ordinary, 100, 100, now) == 6000,
        earned_xp(x, XPActivityType::OriginalPost, SocialPlatform::TwitterX, ordinary, 100, 100, now) == 6000,
        earned_xp(x, XPActivityType::OriginalPost, SocialPlatform::Facebook, ordinary, 100, 100, now) == 5500,
        earned_xp(x, XPActivityType::OriginalPost, SocialPlatform::App, ordinary, 100, 100, now) == 5000,
        earned_xp(x, XPActivityType::OriginalPost, SocialPlatform::App, ordinary, 200, 100, now) == 10000,
        earned_xp(x, XPActivityType::OriginalPost, SocialPlatform::App, viral, 100, 100, now) == 10000,
{
    let p = XPActivityType::OriginalPost;
    let st = streak_after(x, now).2 as int;
    assert(st == 100);
    assert(xp_multipliers(x, SocialPlatform::YouTube, ordinary, 100, 100, now) == 140 * 100 * st * 100 * 100);
    assert(xp_multipliers(x, SocialPlatform::YouTube, ordinary, 100, 100, now) == 14_000_000_000);
    assert(xp_multipliers(x, SocialPlatform::TikTok, ordinary, 100, 100, now) == 13_000_000_000);
    assert(xp_multipliers(x, SocialPlatform::Instagram, ordinary, 100, 100, now) == 12_000_000_000);
    assert(xp_multipliers(x, SocialPlatform::TwitterX, ordinary, 100, 100, now) == 12_000_000_000);
    assert(xp_multipliers(x, SocialPlatform::Facebook, ordinary, 100, 100, now) == 11_000_000_000);
    assert(xp_multipliers(x, SocialPlatform::App, ordinary, 100, 100, now) == 10_000_000_000);
    assert(xp_multipliers(x, SocialPlatform::App, ordinary, 200, 100, now) == 20_000_000_000);
    assert(spec_viral_multiplier(viral) == 200);
    let vr = spec_viral_multiplier(viral) as int;
    assert(xp_multipliers(x, SocialPlatform::App, viral, 100, 100, now) == 100 * 100 * st * 100 * vr);
    assert(xp_multipliers(x, SocialPlatform::App, viral, 100, 100, now) == 20_000_000_000);
    lemma_scaled_xp(50, x, p, SocialPlatform::YouTube, ordinary, 100, 100, now);
    lemma_scaled_xp(50, x, p, SocialPlatform::TikTok, ordinary, 100, 100, now);
    lemma_scaled_xp(50, x, p, SocialPlatform::Instagram, ordinary, 100, 100, now);
    lemma_scaled_xp(50, x, p, SocialPlatform::TwitterX, ordinary, 100, 100, now);
    lemma_scaled_xp(50, x, p, SocialPlatform::Facebook, ordinary, 100, 100, now);
    lemma_scaled_xp(50, x, p, SocialPlatform::App, ordinary, 100, 100, now);
    lemma_scaled_xp(50, x, p, SocialPlatform::App, ordinary, 200, 100, now);
    lemma_scaled_xp(50, x, p, SocialPlatform::App, viral, 100, 100, now);
}

} // verus!
