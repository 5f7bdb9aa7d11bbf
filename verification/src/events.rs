//! Event vocabulary: categories of event names, counts of events, and the activity and
//! platform tables that XP events refer to.
use vstd::prelude::*;

use crate::text::str_eq;

verus! {

/// Sorts events by name into categories.
pub struct EventFilter;

/// Names of security events.
pub open spec fn is_security_name(n: Seq<char>) -> bool {
    n == "SuspiciousActivityDetected"@ || n == "BotDetectionScoreUpdated"@ || n == "UserSuspended"@ || n
        == "CircuitBreakerTriggered"@ || n == "EmergencyPause"@
}

/// Names of financial events.
pub open spec fn is_financial_name(n: Seq<char>) -> bool {
    n == "TokenMinted"@ || n == "TokenBurned"@ || n == "TokenTransfer"@ || n == "RewardPoolFunded"@ || n
        == "TreasuryOperation"@
}

/// Names of user-activity events.
pub open spec fn is_user_activity_name(n: Seq<char>) -> bool {
    n == "MiningStarted"@ || n == "MiningCompleted"@ || n == "XpEarned"@ || n == "ReferralRegistered"@ || n
        == "ContentQualityAssessed"@
}

/// Names of system-health events.
pub open spec fn is_system_health_name(n: Seq<char>) -> bool {
    n == "NetworkHealthCheck"@ || n == "SystemError"@ || n == "RecoveryAction"@ || n == "ExternalApiCall"@
}

/// Names of events that need immediate attention.
pub open spec fn is_urgent_name(n: Seq<char>) -> bool {
    n == "CircuitBreakerTriggered"@ || n == "EmergencyPause"@ || n == "SystemError"@ || n == "RewardPoolDepleted"@
}

impl EventFilter {
    /// Whether the event is a security event.
    pub fn is_security_event(event_name: &str) -> (r: bool)
        ensures
            r == is_security_name(event_name@),
    {
        str_eq(event_name, "SuspiciousActivityDetected") || str_eq(event_name, "BotDetectionScoreUpdated") || str_eq(
            event_name,
            "UserSuspended",
        ) || str_eq(event_name, "CircuitBreakerTriggered") || str_eq(event_name, "EmergencyPause")
    }

    /// Whether the event is a financial event.
    pub fn is_financial_event(event_name: &str) -> (r: bool)
        ensures
            r == is_financial_name(event_name@),
    {
        str_eq(event_name, "TokenMinted") || str_eq(event_name, "TokenBurned") || str_eq(event_name, "TokenTransfer")
            || str_eq(event_name, "RewardPoolFunded") || str_eq(event_name, "TreasuryOperation")
    }

    /// Whether the event records user activity.
    pub fn is_user_activity_event(event_name: &str) -> (r: bool)
        ensures
            r == is_user_activity_name(event_name@),
    {
        str_eq(event_name, "MiningStarted") || str_eq(event_name, "MiningCompleted") || str_eq(event_name, "XpEarned")
            || str_eq(event_name, "ReferralRegistered") || str_eq(event_name, "ContentQualityAssessed")
    }

    /// Whether the event reports on system health.
    pub fn is_system_health_event(event_name: &str) -> (r: bool)
        ensures
            r == is_system_health_name(event_name@),
    {
        str_eq(event_name, "NetworkHealthCheck") || str_eq(event_name, "SystemError") || str_eq(
            event_name,
            "RecoveryAction",
        ) || str_eq(event_name, "ExternalApiCall")
    }

    /// Whether the event needs immediate attention.
    pub fn requires_immediate_attention(event_name: &str) -> (r: bool)
        ensures
            r == is_urgent_name(event_name@),
    {
        str_eq(event_name, "CircuitBreakerTriggered") || str_eq(event_name, "EmergencyPause") || str_eq(
            event_name,
            "SystemError",
        ) || str_eq(event_name, "RewardPoolDepleted")
    }
}

/// Counts over recorded events.
pub struct EventAnalytics;

impl EventAnalytics {
    /// The number of events in the window (every event given is counted).
    pub fn calculate_event_frequency(events: &[String], time_window: i64) -> (n: u64)
        ensures
            n == events@.len(),
    {
        events.len() as u64
    }

    /// Whether there are more than twice as many events as the baseline.
    pub fn detect_event_anomalies(events: &[String], baseline: u64) -> (r: bool)
        requires
            baseline * 2 <= u64::MAX,
        ensures
            r == (events@.len() > baseline * 2),
    {
        events.len() as u64 > baseline * 2
    }
}

/// Activities that earn XP, as XP events name them.
#[derive(Clone, Copy, Debug, PartialEq, Eq, Structural)]
pub enum ActivityType {
    OriginalPost,
    PhotoPost,
    VideoPost,
    StoryPost,
    Comment,
    Like,
    Share,
    Follow,
    DailyLogin,
    QuestCompletion,
    Milestone,
    ViralContent,
    GuildActivity,
    Tournament,
    ContentCuration,
    Moderation,
    Education,
    Mentoring,
}

/// The XP an activity is worth before multipliers.
pub open spec fn spec_activity_base_xp(a: ActivityType) -> u64 {
    match a {
        ActivityType::OriginalPost => 50,
        ActivityType::PhotoPost => 75,
        ActivityType::VideoPost => 150,
        ActivityType::StoryPost => 25,
        ActivityType::Comment => 25,
        ActivityType::Like => 5,
        ActivityType::Share => 15,
        ActivityType::Follow => 20,
        ActivityType::DailyLogin => 10,
        ActivityType::QuestCompletion => 100,
        ActivityType::Milestone => 500,
        ActivityType::ViralContent => 1000,
        ActivityType::GuildActivity => 30,
        ActivityType::Tournament => 200,
        ActivityType::ContentCuration => 40,
        ActivityType::Moderation => 60,
        ActivityType::Education => 80,
        ActivityType::Mentoring => 100,
    }
}

/// How often a day an activity earns XP, if limited.
pub open spec fn spec_activity_daily_limit(a: ActivityType) -> Option<u32> {
    match a {
        ActivityType::PhotoPost => Some(20u32),
        ActivityType::VideoPost => Some(10u32),
        ActivityType::StoryPost => Some(50u32),
        ActivityType::Comment => Some(100u32),
        ActivityType::Like => Some(200u32),
        ActivityType::Share => Some(50u32),
        ActivityType::Follow => Some(25u32),
        ActivityType::DailyLogin => Some(1u32),
        ActivityType::QuestCompletion => Some(3u32),
        _ => None,
    }
}

impl ActivityType {
    /// The XP the activity is worth before multipliers.
    pub fn base_xp(&self) -> (xp: u64)
        ensures
            xp == spec_activity_base_xp(*self),
    {
        match self {
            ActivityType::OriginalPost => 50,
            ActivityType::PhotoPost => 75,
            ActivityType::VideoPost => 150,
            ActivityType::StoryPost => 25,
            ActivityType::Comment => 25,
            ActivityType::Like => 5,
            ActivityType::Share => 15,
            ActivityType::Follow => 20,
            ActivityType::DailyLogin => 10,
            ActivityType::QuestCompletion => 100,
            ActivityType::Milestone => 500,
            ActivityType::ViralContent => 1000,
            ActivityType::GuildActivity => 30,
            ActivityType::Tournament => 200,
            ActivityType::ContentCuration => 40,
            ActivityType::Moderation => 60,
            ActivityType::Education => 80,
            ActivityType::Mentoring => 100,
        }
    }

    /// How often a day the activity earns XP; `None` for no limit.
    pub fn daily_limit(&self) -> (limit: Option<u32>)
        ensures
            limit == spec_activity_daily_limit(*self),
    {
        match self {
            ActivityType::PhotoPost => Some(20),
            ActivityType::VideoPost => Some(10),
            ActivityType::StoryPost => Some(50),
            ActivityType::Comment => Some(100),
            ActivityType::Like => Some(200),
            ActivityType::Share => Some(50),
            ActivityType::Follow => Some(25),
            ActivityType::DailyLogin => Some(1),
            ActivityType::QuestCompletion => Some(3),
            _ => None,
        }
    }
}

/// Platforms, as XP events name them.
#[derive(Clone, Copy, Debug, PartialEq, Eq, Structural)]
pub enum Platform {
    Instagram,
    TikTok,
    YouTube,
    Facebook,
    TwitterX,
    LinkedIn,
    Discord,
    Telegram,
    WhatsApp,
    Snapchat,
    FinovaApp,
}

/// The XP multiplier of a platform, in basis points.
pub open spec fn spec_platform_multiplier(p: Platform) -> u64 {
    match p {
        Platform::TikTok => 13000,
        Platform::Instagram => 12000,
        Platform::YouTube => 14000,
        Platform::TwitterX => 12000,
        Platform::Facebook => 11000,
        Platform::LinkedIn => 11500,
        Platform::Discord => 10500,
        Platform::Telegram => 10500,
        Platform::WhatsApp => 10000,
        Platform::Snapchat => 11000,
        Platform::FinovaApp => 15000,
    }
}

impl Platform {
    /// The XP multiplier of the platform, in basis points.
    pub fn multiplier(&self) -> (m: u64)
        ensures
            m == spec_platform_multiplier(*self),
    {
        match self {
            Platform::TikTok => 13000,
            Platform::Instagram => 12000,
            Platform::YouTube => 14000,
            Platform::TwitterX => 12000,
            Platform::Facebook => 11000,
            Platform::LinkedIn => 11500,
            Platform::Discord => 10500,
            Platform::Telegram => 10500,
            Platform::WhatsApp => 10000,
            Platform::Snapchat => 11000,
            Platform::FinovaApp => 15000,
        }
    }
}

/// Badge tiers, from Bronze to Mythic.
#[derive(Clone, Copy, Debug, PartialEq, Eq, Structural)]
pub enum BadgeTier {
    Bronze,
    Silver,
    Gold,
    Platinum,
    Diamond,
    Mythic,
}

/// Privileges unlocked by levels and badges.
#[derive(Clone, Copy, Debug, PartialEq, Eq, Structural)]
pub enum Privilege {
    SpecialCardsAccess,
    GuildLeadership,
    CreatorMonetization,
    ExclusiveEvents,
    DaoGovernance,
    PrioritySupport,
    CustomReferralCodes,
    AnalyticsDashboard,
    BetaAccess,
    AmbassadorStatus,
}

/// Kinds of streak.
#[derive(Clone, Copy, Debug, PartialEq, Eq, Structural)]
pub enum StreakType {
    DailyLogin,
    DailyPosting,
    DailyQuests,
    WeeklyActivity,
    MonthlyMilestone,
}

/// XP cards.
#[derive(Clone, Copy, Debug, PartialEq, Eq, Structural)]
pub enum XpCardType {
    XpDouble,
    XpTriple,
    XpFrenzy,
    StreakSaver,
    LevelRush,
    XpMagnet,
}

/// Why XP was restored.
#[derive(Clone, Copy, Debug, PartialEq, Eq, Structural)]
pub enum RestorationReason {
    AppealApproved,
    SystemError,
    FalsePositive,
    PolicyChange,
    AdminOverride,
}

/// Why content quality was reassessed.
#[derive(Clone, Copy, Debug, PartialEq, Eq, Structural)]
pub enum ReassessmentReason {
    UserAppeal,
    ModelUpdate,
    ManualReview,
    CommunityFlag,
    QualityAudit,
    ViralReview,
}

/// Kinds of XP boost.
#[derive(Clone, Copy, Debug, PartialEq, Eq, Structural)]
pub enum BoostType {
    Personal,
    Guild,
    Global,
    Newbie,
    Creator,
    Weekend,
    Holiday,
    Competition,
}

/// What started an XP boost.
#[derive(Clone, Copy, Debug, PartialEq, Eq, Structural)]
pub enum BoostTrigger {
    QuestCompletion,
    SpecialEvent,
    Achievement,
    GuildMilestone,
    PlatformEvent,
    UserMilestone,
    CardActivation,
    AdminActivation,
}

/// Kinds of daily quest.
#[derive(Clone, Copy, Debug, PartialEq, Eq, Structural)]
pub enum QuestType {
    PostContent,
    EngageContent,
    ReferUsers,
    XpTarget,
    PlatformDiversity,
    QualityCreation,
    CommunityInteraction,
    EducationalContent,
}

/// Kinds of XP competition.
#[derive(Clone, Copy, Debug, PartialEq, Eq, Structural)]
pub enum CompetitionType {
    DailyLeaderboard,
    WeeklyChallenge,
    MonthlyMarathon,
    CreatorContest,
    PlatformContest,
    GuildBattle,
    NewbieCompetition,
    QualityContest,
}

/// Why XP was taken away.
#[derive(Clone, Copy, Debug, PartialEq, Eq, Structural)]
pub enum PenaltyReason {
    LowQuality,
    BotActivity,
    Spam,
    Inappropriate,
    ToSViolation,
    CoordinatedBehavior,
    Copyright,
    Misinformation,
    CommunityViolation,
}
} // verus!
