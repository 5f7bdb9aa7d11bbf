//! Bot detection: a weighted, smoothed human-probability score, proof-of-humanity
//! submissions, reports of suspicious activity and analysis of behaviour samples.
use vstd::prelude::*;

use crate::core_state::UserAccount;
use crate::errors::FinovaError;
use crate::merkle::bytes32_eq;
use crate::text::{byte_len, string_byte_len};

verus! {

/// Longest metadata of a proof of humanity, in bytes.
pub const MAX_METADATA_LENGTH: usize = 256;
/// Longest description of a report, in bytes.
pub const MAX_DESCRIPTION_LENGTH: usize = 512;
/// Reports after which a user is suspended.
pub const MAX_SUSPICIOUS_REPORTS: u32 = 5;
/// Bot flags after which a robotic behaviour analysis imposes a cooling period.
pub const MAX_BOT_FLAGS: u32 = 10;
/// Most samples of each kind in a behaviour analysis.
pub const MAX_PATTERN_SAMPLES: usize = 100;
/// Human-probability score granted by KYC verification at least.
pub const MINIMUM_KYC_HUMAN_SCORE: u16 = 80;
/// Human-probability score a reporter needs.
pub const MINIMUM_REPORTER_SCORE: u16 = 70;
/// Click-interval variance from which clicks look human.
pub const MIN_HUMAN_CLICK_VARIANCE: u32 = 1000;
/// Click-interval variance that scales the click score.
pub const MAX_HUMAN_CLICK_VARIANCE: u32 = 50000;
/// Shortest human-looking average session, in milliseconds.
pub const MIN_HUMAN_SESSION_DURATION: u32 = 30000;
/// Longest human-looking average session, in milliseconds.
pub const MAX_HUMAN_SESSION_DURATION: u32 = 3600000;
/// Shortest human-looking average gap between activities, in seconds.
pub const MIN_HUMAN_ACTIVITY_INTERVAL: i64 = 5;
/// Longest human-looking average gap between activities, in seconds.
pub const MAX_HUMAN_ACTIVITY_INTERVAL: i64 = 86400;
/// Bot flags after which a suspicious score imposes a cooling period.
pub const SUSPICIOUS_FLAG_LIMIT: u32 = 3;
/// Cooling period after a critical report, in seconds.
pub const CRITICAL_REPORT_COOLDOWN: i64 = 86400;
/// Suspension after too many reports, in seconds.
pub const SUSPENSION_PERIOD: i64 = 604800;

/// Weights, in percent, of the five signals of the human-probability score.
#[derive(Clone, Copy, Debug)]
pub struct HumanProbabilityWeights {
    pub biometric: u32,
    pub behavioral: u32,
    pub social_graph: u32,
    pub device: u32,
    pub interaction: u32,
}

/// Thresholds and counters of bot detection.
#[derive(Clone, Copy, Debug)]
pub struct AntiBotConfig {
    pub authority: [u8; 32],
    /// Score, in percent, from which a user is a verified human.
    pub detection_threshold: u16,
    /// Score, in percent, up to which a user is suspicious.
    pub suspicious_threshold: u16,
    pub penalty_multiplier: u16,
    /// Cooling period imposed on suspicious users, in seconds.
    pub cooling_period: i64,
    pub total_reports: u64,
    pub verified_humans: u64,
    pub suspected_bots: u64,
    pub bump: u8,
    pub created_at: i64,
    pub updated_at: i64,
}

/// A submitted proof of humanity.
#[derive(Clone, Debug)]
pub struct ProofOfHumanity {
    pub user: [u8; 32],
    /// 1 KYC, 2 biometric, 3 social, 4 device.
    pub verification_type: u8,
    pub verification_data_hash: [u8; 32],
    pub metadata: String,
    pub submitted_at: i64,
    /// 0 pending, 1 approved, 2 rejected.
    pub status: u8,
    pub verified_by: [u8; 32],
    pub verified_at: i64,
    pub attempts: u16,
    pub bump: u8,
}

/// A report of suspicious activity.
#[derive(Clone, Debug)]
pub struct SuspiciousActivityReport {
    pub reported_user: [u8; 32],
    pub reporter: [u8; 32],
    /// 1 bot behaviour, 2 spam, 3 fake engagement, 4 network abuse.
    pub activity_type: u8,
    pub evidence_hash: [u8; 32],
    pub description: String,
    /// 1 low to 4 critical.
    pub severity: u8,
    pub reported_at: i64,
    /// 0 pending, 1 confirmed, 2 dismissed.
    pub status: u8,
    pub reviewed_by: [u8; 32],
    pub reviewed_at: i64,
    pub bump: u8,
}

/// The result of the last behaviour analysis of a user.
#[derive(Clone, Copy, Debug)]
pub struct BehaviorPattern {
    pub user: [u8; 32],
    pub click_variance: u32,
    pub avg_session_duration: u32,
    pub behavior_score: u16,
    pub pattern_count: u32,
    pub last_analysis: i64,
    pub updated_at: i64,
    pub bump: u8,
}

/// The thresholds that a configuration admits.
pub open spec fn thresholds_valid(detection: u16, suspicious: u16, penalty: u16, cooling: i64) -> bool {
    detection <= 100 && suspicious <= 100 && penalty <= 1000 && cooling > 0
}

/// Sets up bot detection with thresholds in percent (at most 100), a penalty multiplier of at
/// most 1000 and a positive cooling period (`InvalidParameter` otherwise).
pub fn initialize_anti_bot_system(
    authority: [u8; 32],
    detection_threshold: u16,
    suspicious_threshold: u16,
    penalty_multiplier: u16,
    cooling_period: i64,
    now: i64,
    bump: u8,
) -> (res: Result<AntiBotConfig, FinovaError>)
    ensures
        !thresholds_valid(detection_threshold, suspicious_threshold, penalty_multiplier, cooling_period) ==> res
            == Err::<AntiBotConfig, FinovaError>(FinovaError::InvalidParameter),
        thresholds_valid(detection_threshold, suspicious_threshold, penalty_multiplier, cooling_period) ==> res
            == Ok::<AntiBotConfig, FinovaError>(
            AntiBotConfig {
                authority,
                detection_threshold,
                suspicious_threshold,
                penalty_multiplier,
                cooling_period,
                total_reports: 0,
                verified_humans: 0,
                suspected_bots: 0,
                bump,
                created_at: now,
                updated_at: now,
            },
        ),
{
    if detection_threshold > 100 || suspicious_threshold > 100 || penalty_multiplier > 1000 || cooling_period <= 0 {
        return Err(FinovaError::InvalidParameter);
    }
    Ok(
        AntiBotConfig {
            authority,
            detection_threshold,
            suspicious_threshold,
            penalty_multiplier,
            cooling_period,
            total_reports: 0,
            verified_humans: 0,
            suspected_bots: 0,
            bump,
            created_at: now,
            updated_at: now,
        },
    )
}

/// The weighted score of the five signals, in percent: 25% biometric, 30% behavioural, 20%
/// social graph, 15% device and 10% interaction.
pub open spec fn spec_weighted_score(b: u16, be: u16, s: u16, d: u16, i: u16) -> int {
    (b * 25 + be * 30 + s * 20 + d * 15 + i * 10) / 100
}

/// The new score: the weighted score alone for a user without one, else 70% of it and 30% of
/// the previous score.
pub open spec fn spec_smoothed_score(weighted: int, previous: u16) -> int {
    if previous > 0 {
        (weighted * 70 + previous * 30) / 100
    } else {
        weighted
    }
}

/// Rescores a user from five signals in percent (`InvalidParameter` if any exceeds 100). From
/// the detection threshold up the user becomes a verified human without bot flags; up to the
/// suspicious threshold the user gains a bot flag, loses verification and, from the third
/// flag, cools down until `now` plus the cooling period. Returns the new score. A score of at
/// most 100 stays at most 100.
pub fn update_human_probability(
    user_account: &mut UserAccount,
    anti_bot_config: &AntiBotConfig,
    biometric_score: u16,
    behavioral_score: u16,
    social_graph_score: u16,
    device_score: u16,
    interaction_score: u16,
    now: i64,
) -> (res: Result<u16, FinovaError>)
    requires
        old(user_account).bot_flags < u32::MAX,
        i64::MIN <= now + anti_bot_config.cooling_period <= i64::MAX,
    ensures
        !(biometric_score <= 100 && behavioral_score <= 100 && social_graph_score <= 100 && device_score <= 100
            && interaction_score <= 100) ==> res == Err::<u16, FinovaError>(FinovaError::InvalidParameter)
            && *final(user_account) == *old(user_account),
        (biometric_score <= 100 && behavioral_score <= 100 && social_graph_score <= 100 && device_score <= 100
            && interaction_score <= 100) ==> {
            let score = spec_smoothed_score(
                spec_weighted_score(biometric_score, behavioral_score, social_graph_score, device_score, interaction_score),
                old(user_account).human_probability_score,
            );
            let verified = score >= anti_bot_config.detection_threshold;
            let suspicious = !verified && score <= anti_bot_config.suspicious_threshold;
            let flags = if verified { 0 } else if suspicious { old(user_account).bot_flags + 1 } else { old(user_account).bot_flags as int };
            &&& res == Ok::<u16, FinovaError>(score as u16)
            &&& *final(user_account) == (UserAccount {
                human_probability_score: score as u16,
                last_probability_update: now,
                is_verified_human: if verified { true } else if suspicious { false } else { old(user_account).is_verified_human },
                bot_flags: flags as u32,
                cooling_period_end: if suspicious && flags >= SUSPICIOUS_FLAG_LIMIT {
                    (now + anti_bot_config.cooling_period) as i64
                } else {
                    old(user_account).cooling_period_end
                },
                ..*old(user_account)
            })
        },
        old(user_account).human_probability_score <= 100 ==> final(user_account).human_probability_score <= 100,
{
    if !(biometric_score <= 100 && behavioral_score <= 100 && social_graph_score <= 100 && device_score <= 100
        && interaction_score <= 100) {
        return Err(FinovaError::InvalidParameter);
    }
    let weights = HumanProbabilityWeights { biometric: 25, behavioral: 30, social_graph: 20, device: 15, interaction: 10 };
    let weighted_score: u32 = (biometric_score as u32 * weights.biometric + behavioral_score as u32 * weights.behavioral
        + social_graph_score as u32 * weights.social_graph + device_score as u32 * weights.device
        + interaction_score as u32 * weights.interaction) / 100;
    let previous_score = user_account.human_probability_score;
    let final_score: u32 = if previous_score > 0 {
        (weighted_score * 70 + previous_score as u32 * 30) / 100
    } else {
        weighted_score
    };
    user_account.human_probability_score = final_score as u16;
    user_account.last_probability_update = now;
    if final_score >= anti_bot_config.detection_threshold as u32 {
        user_account.is_verified_human = true;
        user_account.bot_flags = 0;
    } else if final_score <= anti_bot_config.suspicious_threshold as u32 {
        user_account.bot_flags = user_account.bot_flags + 1;
        user_account.is_verified_human = false;
        if user_account.bot_flags >= SUSPICIOUS_FLAG_LIMIT {
            user_account.cooling_period_end = now + anti_bot_config.cooling_period;
        }
    }
    Ok(final_score as u16)
}

/// Records a proof of humanity of type 1 to 4 (`InvalidParameter` otherwise) with metadata of
/// at most `MAX_METADATA_LENGTH` bytes (`MetadataTooLong`). The submission is pending; the
/// user counts one more submission at `now`, and a KYC proof (type 1) marks the user verified
/// and raises the human-probability score to at least `MINIMUM_KYC_HUMAN_SCORE`.
pub fn submit_proof_of_humanity(
    user_account: &mut UserAccount,
    user: [u8; 32],
    verification_type: u8,
    verification_data_hash: [u8; 32],
    metadata: String,
    now: i64,
    bump: u8,
) -> (res: Result<ProofOfHumanity, FinovaError>)
    requires
        old(user_account).poh_submissions < u32::MAX,
    ensures
        !(1 <= verification_type <= 4) ==> res is Err && res == Err::<ProofOfHumanity, FinovaError>(
            FinovaError::InvalidParameter,
        ),
        1 <= verification_type <= 4 && byte_len(metadata@) > MAX_METADATA_LENGTH ==> res == Err::<
            ProofOfHumanity,
            FinovaError,
        >(FinovaError::MetadataTooLong),
        res is Err ==> *final(user_account) == *old(user_account),
        1 <= verification_type <= 4 && byte_len(metadata@) <= MAX_METADATA_LENGTH ==> {
            &&& res is Ok
            &&& *final(user_account) == (UserAccount {
                poh_submissions: (old(user_account).poh_submissions + 1) as u32,
                last_poh_submission: now,
                kyc_verified: if verification_type == 1 { true } else { old(user_account).kyc_verified },
                human_probability_score: if verification_type == 1
                    && old(user_account).human_probability_score < MINIMUM_KYC_HUMAN_SCORE {
                    MINIMUM_KYC_HUMAN_SCORE
                } else {
                    old(user_account).human_probability_score
                },
                ..*old(user_account)
            })
        },
        res matches Ok(p) ==> {
            &&& p.user == user
            &&& p.verification_type == verification_type
            &&& p.verification_data_hash == verification_data_hash
            &&& p.metadata@ == metadata@
            &&& p.submitted_at == now
            &&& p.status == 0
            &&& forall|i: int| 0 <= i < 32 ==> #[trigger] p.verified_by@[i] == 0
            &&& p.verified_at == 0
            &&& p.attempts == 1
            &&& p.bump == bump
        },
        old(user_account).human_probability_score <= 100 ==> final(user_account).human_probability_score <= 100,
{
    if !(verification_type >= 1 && verification_type <= 4) {
        return Err(FinovaError::InvalidParameter);
    }
    if string_byte_len(&metadata) > MAX_METADATA_LENGTH {
        return Err(FinovaError::MetadataTooLong);
    }
    let proof = ProofOfHumanity {
        user,
        verification_type,
        verification_data_hash,
        metadata,
        submitted_at: now,
        status: 0,
        verified_by: [0u8; 32],
        verified_at: 0,
        attempts: 1,
        bump,
    };
    user_account.poh_submissions = user_account.poh_submissions + 1;
    user_account.last_poh_submission = now;
    if verification_type == 1 {
        user_account.kyc_verified = true;
        if user_account.human_probability_score < MINIMUM_KYC_HUMAN_SCORE {
            user_account.human_probability_score = MINIMUM_KYC_HUMAN_SCORE;
        }
    }
    Ok(proof)
}

/// The outcome of the checks on a report, in the order they run.
pub open spec fn report_check(
    reported: UserAccount,
    reporter_account: UserAccount,
    reporter: [u8; 32],
    activity_type: u8,
    description_len: nat,
    severity: u8,
) -> Result<(), FinovaError> {
    if !(1 <= activity_type <= 4) || !(1 <= severity <= 4) {
        Err(FinovaError::InvalidParameter)
    } else if description_len > MAX_DESCRIPTION_LENGTH {
        Err(FinovaError::DescriptionTooLong)
    } else if !reporter_account.is_verified_human {
        Err(FinovaError::ReporterNotVerified)
    } else if reporter == reported.owner {
        Err(FinovaError::CannotReportSelf)
    } else if reporter_account.human_probability_score < MINIMUM_REPORTER_SCORE {
        Err(FinovaError::InsufficientReporterScore)
    } else {
        Ok(())
    }
}

/// The reported user after a report of `severity` at `now`.
pub open spec fn reported_after(u: UserAccount, severity: u8, now: i64) -> UserAccount {
    let reports = u.suspicious_reports + 1;
    UserAccount {
        suspicious_reports: reports as u32,
        bot_flags: (u.bot_flags + severity) as u32,
        human_probability_score: if severity >= 3 {
            if u.human_probability_score >= severity * 5 {
                (u.human_probability_score - severity * 5) as u16
            } else {
                0
            }
        } else {
            u.human_probability_score
        },
        cooling_period_end: if severity == 4 { (now + CRITICAL_REPORT_COOLDOWN) as i64 } else { u.cooling_period_end },
        is_suspended: if reports >= MAX_SUSPICIOUS_REPORTS { true } else { u.is_suspended },
        suspension_end: if reports >= MAX_SUSPICIOUS_REPORTS { (now + SUSPENSION_PERIOD) as i64 } else { u.suspension_end },
        ..u
    }
}

/// Files a report by a verified reporter of sufficient score against another user, after the
/// checks of `report_check`. The reported user counts one more report and gains `severity` bot
/// flags; a severe report (3 or more) costs five points of score per level of severity, a
/// critical one (4) imposes a day of cooling, and the fifth report suspends the user for a
/// week. On failure nothing changes.
pub fn report_suspicious_activity(
    reported_user: &mut UserAccount,
    reporter_account: &UserAccount,
    reporter: [u8; 32],
    activity_type: u8,
    evidence_hash: [u8; 32],
    description: String,
    severity: u8,
    now: i64,
    bump: u8,
) -> (res: Result<SuspiciousActivityReport, FinovaError>)
    requires
        old(reported_user).suspicious_reports < u32::MAX,
        old(reported_user).bot_flags + 4 <= u32::MAX,
        now + SUSPENSION_PERIOD <= i64::MAX,
    ensures
        ({
            let check = report_check(
                *old(reported_user),
                *reporter_account,
                reporter,
                activity_type,
                byte_len(description@),
                severity,
            );
            &&& check is Err ==> res == Err::<SuspiciousActivityReport, FinovaError>(check->Err_0)
                && *final(reported_user) == *old(reported_user)
            &&& check is Ok ==> res is Ok && *final(reported_user) == reported_after(*old(reported_user), severity, now)
        }),
        res matches Ok(r) ==> {
            &&& r.reported_user == old(reported_user).owner
            &&& r.reporter == reporter
            &&& r.activity_type == activity_type
            &&& r.evidence_hash == evidence_hash
            &&& r.description@ == description@
            &&& r.severity == severity
            &&& r.reported_at == now
            &&& r.status == 0
            &&& forall|i: int| 0 <= i < 32 ==> #[trigger] r.reviewed_by@[i] == 0
            &&& r.reviewed_at == 0
            &&& r.bump == bump
        },
        old(reported_user).human_probability_score <= 100 ==> final(reported_user).human_probability_score <= 100,
{
    if !(activity_type >= 1 && activity_type <= 4) {
        return Err(FinovaError::InvalidParameter);
    }
    if !(severity >= 1 && severity <= 4) {
        return Err(FinovaError::InvalidParameter);
    }
    if string_byte_len(&description) > MAX_DESCRIPTION_LENGTH {
        return Err(FinovaError::DescriptionTooLong);
    }
    if !reporter_account.is_verified_human {
        return Err(FinovaError::ReporterNotVerified);
    }
    if bytes32_eq(&reporter, &reported_user.owner) {
        return Err(FinovaError::CannotReportSelf);
    }
    if reporter_account.human_probability_score < MINIMUM_REPORTER_SCORE {
        return Err(FinovaError::InsufficientReporterScore);
    }
    let report = SuspiciousActivityReport {
        reported_user: reported_user.owner,
        reporter,
        activity_type,
        evidence_hash,
        description,
        severity,
        reported_at: now,
        status: 0,
        reviewed_by: [0u8; 32],
        reviewed_at: 0,
        bump,
    };
    reported_user.suspicious_reports = reported_user.suspicious_reports + 1;
    reported_user.bot_flags = reported_user.bot_flags + severity as u32;
    if severity >= 3 {
        let penalty = severity as u16 * 5;
        reported_user.human_probability_score = if reported_user.human_probability_score >= penalty {
            reported_user.human_probability_score - penalty
        } else {
            0
        };
        if severity == 4 {
            reported_user.cooling_period_end = now + CRITICAL_REPORT_COOLDOWN;
        }
    }
    if reported_user.suspicious_reports >= MAX_SUSPICIOUS_REPORTS {
        reported_user.is_suspended = true;
        reported_user.suspension_end = now + SUSPENSION_PERIOD;
    }
    Ok(report)
}

/// Whether the optional new parameters are admissible.
pub open spec fn new_params_valid(
    detection: Option<u16>,
    suspicious: Option<u16>,
    penalty: Option<u16>,
    cooling: Option<i64>,
) -> bool {
    &&& (detection matches Some(t) ==> t <= 100)
    &&& (suspicious matches Some(t) ==> t <= 100)
    &&& (penalty matches Some(m) ==> m <= 1000)
    &&& (cooling matches Some(p) ==> p > 0)
}

/// Replaces the parameters given, on the authority's request (`Unauthorized` otherwise), when
/// all of them are admissible (`InvalidParameter` otherwise); the configuration is updated at
/// `now`. On failure nothing changes.
pub fn update_bot_detection_params(
    anti_bot_config: &mut AntiBotConfig,
    authority: [u8; 32],
    new_detection_threshold: Option<u16>,
    new_suspicious_threshold: Option<u16>,
    new_penalty_multiplier: Option<u16>,
    new_cooling_period: Option<i64>,
    now: i64,
) -> (res: Result<(), FinovaError>)
    ensures
        authority != old(anti_bot_config).authority ==> res == Err::<(), FinovaError>(FinovaError::Unauthorized),
        authority == old(anti_bot_config).authority && !new_params_valid(
            new_detection_threshold,
            new_suspicious_threshold,
            new_penalty_multiplier,
            new_cooling_period,
        ) ==> res == Err::<(), FinovaError>(FinovaError::InvalidParameter),
        res is Err ==> *final(anti_bot_config) == *old(anti_bot_config),
        authority == old(anti_bot_config).authority && new_params_valid(
            new_detection_threshold,
            new_suspicious_threshold,
            new_penalty_multiplier,
            new_cooling_period,
        ) ==> res is Ok && *final(anti_bot_config) == (AntiBotConfig {
            detection_threshold: match new_detection_threshold {
                Some(t) => t,
                None => old(anti_bot_config).detection_threshold,
            },
            suspicious_threshold: match new_suspicious_threshold {
                Some(t) => t,
                None => old(anti_bot_config).suspicious_threshold,
            },
            penalty_multiplier: match new_penalty_multiplier {
                Some(m) => m,
                None => old(anti_bot_config).penalty_multiplier,
            },
            cooling_period: match new_cooling_period {
                Some(p) => p,
                None => old(anti_bot_config).cooling_period,
            },
            updated_at: now,
            ..*old(anti_bot_config)
        }),
{
    if !bytes32_eq(&authority, &anti_bot_config.authority) {
        return Err(FinovaError::Unauthorized);
    }
    match new_detection_threshold {
        Some(t) => {
            if t > 100 {
                return Err(FinovaError::InvalidParameter);
            }
        },
        None => {},
    }
    match new_suspicious_threshold {
        Some(t) => {
            if t > 100 {
                return Err(FinovaError::InvalidParameter);
            }
        },
        None => {},
    }
    match new_penalty_multiplier {
        Some(m) => {
            if m > 1000 {
                return Err(FinovaError::InvalidParameter);
            }
        },
        None => {},
    }
    match new_cooling_period {
        Some(p) => {
            if p <= 0 {
                return Err(FinovaError::InvalidParameter);
            }
        },
        None => {},
    }
    match new_detection_threshold {
        Some(t) => anti_bot_config.detection_threshold = t,
        None => {},
    }
    match new_suspicious_threshold {
        Some(t) => anti_bot_config.suspicious_threshold = t,
        None => {},
    }
    match new_penalty_multiplier {
        Some(m) => anti_bot_config.penalty_multiplier = m,
        None => {},
    }
    match new_cooling_period {
        Some(p) => anti_bot_config.cooling_period = p,
        None => {},
    }
    anti_bot_config.updated_at = now;
    Ok(())
}

/// The sum of a sequence.
pub open spec fn seq_sum(s: Seq<u32>) -> int
    decreases s.len(),
{
    if s.len() == 0 {
        0
    } else {
        seq_sum(s.drop_last()) + s.last()
    }
}

/// The distance between `x` and `m`.
pub open spec fn abs_diff(x: int, m: int) -> int {
    if x > m {
        x - m
    } else {
        m - x
    }
}

/// The sum of the squared distances of the elements of `s` to `mean`.
pub open spec fn sq_dev_sum(s: Seq<u32>, mean: int) -> int
    decreases s.len(),
{
    if s.len() == 0 {
        0
    } else {
        sq_dev_sum(s.drop_last(), mean) + abs_diff(s.last() as int, mean) * abs_diff(s.last() as int, mean)
    }
}

/// The mean of a sequence, rounded down.
pub open spec fn seq_mean(s: Seq<u32>) -> int {
    seq_sum(s) / s.len() as int
}

/// The variance of a sequence about its rounded-down mean, rounded down; 0 for fewer than two
/// elements.
pub open spec fn spec_variance(s: Seq<u32>) -> int {
    if s.len() < 2 {
        0
    } else {
        sq_dev_sum(s, seq_mean(s)) / s.len() as int
    }
}

/// Whether the variance of `s` can be computed in 32 bits.
pub open spec fn variance_fits(s: Seq<u32>) -> bool {
    s.len() >= 2 ==> seq_sum(s) <= u32::MAX && sq_dev_sum(s, seq_mean(s)) <= u32::MAX
}

/// Sums of prefixes grow by the next element.
proof fn lemma_prefix_sums(s: Seq<u32>, i: int, mean: int)
    requires
        0 <= i < s.len(),
    ensures
        seq_sum(s.take(i + 1)) == seq_sum(s.take(i)) + s[i],
        sq_dev_sum(s.take(i + 1), mean) == sq_dev_sum(s.take(i), mean) + abs_diff(s[i] as int, mean) * abs_diff(
            s[i] as int,
            mean,
        ),
{
    assert(s.take(i + 1).drop_last() =~= s.take(i));
}

/// The variance of `data`.
pub fn calculate_variance(data: &[u32]) -> (v: u32)
    requires
        data@.len() <= MAX_PATTERN_SAMPLES,
        variance_fits(data@),
    ensures
        v == spec_variance(data@),
{
    let n = data.len();
    if n < 2 {
        return 0;
    }
    let mut total: u64 = 0;
    let mut i: usize = 0;
    while i < n
        invariant
            n == data@.len(),
            n <= MAX_PATTERN_SAMPLES,
            i <= n,
            total == seq_sum(data@.take(i as int)),
            total <= i * 0xffff_ffff,
        decreases n - i,
    {
        proof {
            lemma_prefix_sums(data@, i as int, 0);
        }
        total = total + data[i] as u64;
        i = i + 1;
    }
    proof {
        assert(data@.take(n as int) =~= data@);
    }
    let mean: u32 = (total / n as u64) as u32;
    let mut squares: u128 = 0;
    let mut j: usize = 0;
    while j < n
        invariant
            n == data@.len(),
            n <= MAX_PATTERN_SAMPLES,
            j <= n,
            mean == seq_mean(data@),
            squares == sq_dev_sum(data@.take(j as int), mean as int),
            squares <= j * 0xffff_ffff_ffff_ffff,
        decreases n - j,
    {
        let x = data[j];
        let diff: u64 = if x > mean { (x - mean) as u64 } else { (mean - x) as u64 };
        proof {
            lemma_prefix_sums(data@, j as int, mean as int);
            assert(diff * diff <= 0xffff_ffff * 0xffff_ffff) by (nonlinear_arith)
                requires
                    diff <= 0xffff_ffff,
            ;
        }
        squares = squares + diff as u128 * diff as u128;
        j = j + 1;
    }
    proof {
        assert(data@.take(n as int) =~= data@);
    }
    (squares / n as u128) as u32
}

/// `d / q` rounded toward zero, as Rust divides signed integers.
pub open spec fn trunc_div(d: int, q: int) -> int {
    if d >= 0 {
        d / q
    } else {
        -((-d) / q)
    }
}

/// The score, in percent, of the clicks' variance.
pub open spec fn spec_click_score(variance: int) -> int {
    if variance > MIN_HUMAN_CLICK_VARIANCE {
        let raw = (variance - MIN_HUMAN_CLICK_VARIANCE) * 100 / (MAX_HUMAN_CLICK_VARIANCE as int);
        if raw < 100 { raw } else { 100 }
    } else {
        0
    }
}

/// The average session, rounded down; 0 without sessions.
pub open spec fn spec_avg_session(s: Seq<u32>) -> int {
    if s.len() == 0 {
        0
    } else {
        seq_sum(s) / s.len() as int
    }
}

/// The score, in percent, of the average session.
pub open spec fn spec_session_score(avg: int) -> int {
    if MIN_HUMAN_SESSION_DURATION <= avg <= MAX_HUMAN_SESSION_DURATION {
        100
    } else {
        50
    }
}

/// The score, in percent, of the gaps between activities: by the average gap (first to last,
/// over the number of gaps) when there are two activities or more.
pub open spec fn spec_temporal_score(t: Seq<i64>) -> int {
    if t.len() >= 2 {
        let avg = trunc_div(t.last() - t[0], t.len() - 1);
        if MIN_HUMAN_ACTIVITY_INTERVAL <= avg <= MAX_HUMAN_ACTIVITY_INTERVAL {
            100
        } else {
            30
        }
    } else {
        50
    }
}

/// The behaviour score, in percent: 30% clicks, 35% sessions, 35% timing.
pub open spec fn spec_behavior_score(clicks: Seq<u32>, sessions: Seq<u32>, stamps: Seq<i64>) -> int {
    (spec_click_score(spec_variance(clicks)) * 30 + spec_session_score(spec_avg_session(sessions)) * 35
        + spec_temporal_score(stamps) * 35) / 100
}

/// Whether the gaps between activities, and their running sums, fit in 64 bits.
pub open spec fn gaps_fit(t: Seq<i64>) -> bool {
    forall|k: int|
        0 < k < t.len() ==> i64::MIN <= #[trigger] t[k] - t[k - 1] <= i64::MAX && i64::MIN <= t[k] - t[0] <= i64::MAX
}

/// Whether an analysis of these samples stays within the integer widths it computes in.
pub open spec fn behavior_fits(clicks: Seq<u32>, sessions: Seq<u32>, stamps: Seq<i64>) -> bool {
    &&& variance_fits(clicks)
    &&& spec_variance(clicks) > MIN_HUMAN_CLICK_VARIANCE ==> (spec_variance(clicks) - MIN_HUMAN_CLICK_VARIANCE)
        * 100 <= u32::MAX
    &&& seq_sum(sessions) <= u32::MAX
    &&& gaps_fit(stamps)
}

/// The average gap between activities, rounded toward zero.
fn average_interval(stamps: &Vec<i64>) -> (avg: i64)
    requires
        2 <= stamps@.len() <= MAX_PATTERN_SAMPLES,
        gaps_fit(stamps@),
    ensures
        avg == trunc_div(stamps@.last() - stamps@[0], stamps@.len() - 1),
{
    let n = stamps.len();
    let mut sum: i64 = 0;
    let mut i: usize = 1;
    while i < n
        invariant
            n == stamps@.len(),
            2 <= n <= MAX_PATTERN_SAMPLES,
            1 <= i <= n,
            gaps_fit(stamps@),
            sum == stamps@[i - 1] - stamps@[0],
        decreases n - i,
    {
        assert(i64::MIN <= stamps@[i as int] - stamps@[i - 1] <= i64::MAX);
        let gap = stamps[i] - stamps[i - 1];
        sum = sum + gap;
        i = i + 1;
    }
    sum / (n - 1) as i64
}

/// The score, in percent, of the clicks' variance.
fn click_score(click_variance: u32) -> (score: u16)
    requires
        click_variance > MIN_HUMAN_CLICK_VARIANCE ==> (click_variance - MIN_HUMAN_CLICK_VARIANCE) * 100 <= u32::MAX,
    ensures
        score == spec_click_score(click_variance as int),
        score <= 100,
{
    if click_variance > MIN_HUMAN_CLICK_VARIANCE {
        let raw: u32 = (click_variance - MIN_HUMAN_CLICK_VARIANCE) * 100 / MAX_HUMAN_CLICK_VARIANCE;
        if raw < 100 { raw as u16 } else { 100 }
    } else {
        0
    }
}

/// The average session, rounded down; 0 without sessions.
fn average_session(session_durations: &Vec<u32>) -> (avg: u32)
    requires
        session_durations@.len() <= MAX_PATTERN_SAMPLES,
        seq_sum(session_durations@) <= u32::MAX,
    ensures
        avg == spec_avg_session(session_durations@),
{
    let n_sessions = session_durations.len();
    if n_sessions == 0 {
        return 0;
    }
    let mut total: u64 = 0;
    let mut i: usize = 0;
    while i < n_sessions
        invariant
            n_sessions == session_durations@.len(),
            n_sessions <= MAX_PATTERN_SAMPLES,
            i <= n_sessions,
            total == seq_sum(session_durations@.take(i as int)),
            total <= i * 0xffff_ffff,
        decreases n_sessions - i,
    {
        proof {
            lemma_prefix_sums(session_durations@, i as int, 0);
        }
        total = total + session_durations[i] as u64;
        i = i + 1;
    }
    proof {
        assert(session_durations@.take(n_sessions as int) =~= session_durations@);
    }
    (total / n_sessions as u64) as u32
}

/// The score, in percent, of the gaps between activities.
fn temporal_score(activity_timestamps: &Vec<i64>) -> (score: u32)
    requires
        activity_timestamps@.len() <= MAX_PATTERN_SAMPLES,
        gaps_fit(activity_timestamps@),
    ensures
        score == spec_temporal_score(activity_timestamps@),
{
    if activity_timestamps.len() >= 2 {
        let avg_interval = average_interval(activity_timestamps);
        if avg_interval >= MIN_HUMAN_ACTIVITY_INTERVAL && avg_interval <= MAX_HUMAN_ACTIVITY_INTERVAL {
            100
        } else {
            30
        }
    } else {
        50
    }
}

/// The behaviour score of the samples, in percent.
pub fn behavior_score_of(click_patterns: &Vec<u32>, session_durations: &Vec<u32>, activity_timestamps: &Vec<i64>) -> (score: u32)
    requires
        click_patterns@.len() <= MAX_PATTERN_SAMPLES,
        session_durations@.len() <= MAX_PATTERN_SAMPLES,
        activity_timestamps@.len() <= MAX_PATTERN_SAMPLES,
        behavior_fits(click_patterns@, session_durations@, activity_timestamps@),
    ensures
        score == spec_behavior_score(click_patterns@, session_durations@, activity_timestamps@),
        score <= 100,
{
    let click_variance = calculate_variance(click_patterns.as_slice());
    let click_human_score = click_score(click_variance);
    let avg_session_duration = average_session(session_durations);
    let session_human_score: u32 = if avg_session_duration >= MIN_HUMAN_SESSION_DURATION && avg_session_duration
        <= MAX_HUMAN_SESSION_DURATION {
        100
    } else {
        50
    };
    let temporal_human_score = temporal_score(activity_timestamps);
    (click_human_score as u32 * 30 + session_human_score * 35 + temporal_human_score * 35) / 100
}

/// Analyses samples of a user's behaviour: up to `MAX_PATTERN_SAMPLES` click intervals,
/// sessions and activity timestamps each (`TooManyPatterns`). The pattern records the click
/// variance, the average session and the score of `spec_behavior_score`, and counts one more
/// analysis at `now`; the user's score becomes 70% the old score and 30% the behaviour score,
/// and a score under the suspicious threshold adds a bot flag, with a cooling period from the
/// tenth flag. Returns the behaviour score. A score of at most 100 stays at most 100.
pub fn validate_user_behavior(
    user_account: &mut UserAccount,
    behavior_pattern: &mut BehaviorPattern,
    anti_bot_config: &AntiBotConfig,
    click_patterns: Vec<u32>,
    session_durations: Vec<u32>,
    activity_timestamps: Vec<i64>,
    interaction_qualities: Vec<u16>,
    now: i64,
) -> (res: Result<u16, FinovaError>)
    requires
        click_patterns@.len() <= MAX_PATTERN_SAMPLES && session_durations@.len() <= MAX_PATTERN_SAMPLES
            && activity_timestamps@.len() <= MAX_PATTERN_SAMPLES ==> behavior_fits(
            click_patterns@,
            session_durations@,
            activity_timestamps@,
        ),
        old(behavior_pattern).pattern_count < u32::MAX,
        old(user_account).bot_flags < u32::MAX,
        i64::MIN <= now + anti_bot_config.cooling_period <= i64::MAX,
    ensures
        !(click_patterns@.len() <= MAX_PATTERN_SAMPLES && session_durations@.len() <= MAX_PATTERN_SAMPLES
            && activity_timestamps@.len() <= MAX_PATTERN_SAMPLES) ==> res == Err::<u16, FinovaError>(
            FinovaError::TooManyPatterns,
        ) && *final(user_account) == *old(user_account) && *final(behavior_pattern) == *old(behavior_pattern),
        click_patterns@.len() <= MAX_PATTERN_SAMPLES && session_durations@.len() <= MAX_PATTERN_SAMPLES
            && activity_timestamps@.len() <= MAX_PATTERN_SAMPLES ==> {
            let score = spec_behavior_score(click_patterns@, session_durations@, activity_timestamps@);
            let robotic = score < anti_bot_config.suspicious_threshold;
            let flags = if robotic { old(user_account).bot_flags + 1 } else { old(user_account).bot_flags as int };
            &&& res == Ok::<u16, FinovaError>(score as u16)
            &&& *final(behavior_pattern) == (BehaviorPattern {
                user: old(user_account).owner,
                click_variance: spec_variance(click_patterns@) as u32,
                avg_session_duration: spec_avg_session(session_durations@) as u32,
                behavior_score: score as u16,
                pattern_count: (old(behavior_pattern).pattern_count + 1) as u32,
                last_analysis: now,
                updated_at: now,
                ..*old(behavior_pattern)
            })
            &&& *final(user_account) == (UserAccount {
                human_probability_score: ((old(user_account).human_probability_score * 70 + score * 30) / 100) as u16,
                last_behavior_analysis: now,
                bot_flags: flags as u32,
                cooling_period_end: if robotic && flags >= MAX_BOT_FLAGS {
                    (now + anti_bot_config.cooling_period) as i64
                } else {
                    old(user_account).cooling_period_end
                },
                ..*old(user_account)
            })
        },
        old(user_account).human_probability_score <= 100 ==> final(user_account).human_probability_score <= 100,
{
    if click_patterns.len() > MAX_PATTERN_SAMPLES || session_durations.len() > MAX_PATTERN_SAMPLES
        || activity_timestamps.len() > MAX_PATTERN_SAMPLES {
        return Err(FinovaError::TooManyPatterns);
    }
    let click_variance = calculate_variance(click_patterns.as_slice());
    let avg_session_duration = average_session(&session_durations);
    let behavior_score = behavior_score_of(&click_patterns, &session_durations, &activity_timestamps);
    behavior_pattern.user = user_account.owner;
    behavior_pattern.click_variance = click_variance;
    behavior_pattern.avg_session_duration = avg_session_duration;
    behavior_pattern.behavior_score = behavior_score as u16;
    behavior_pattern.pattern_count = behavior_pattern.pattern_count + 1;
    behavior_pattern.last_analysis = now;
    behavior_pattern.updated_at = now;
    let current_prob = user_account.human_probability_score as u32;
    let new_prob = (current_prob * 70 + behavior_score * 30) / 100;
    user_account.human_probability_score = new_prob as u16;
    user_account.last_behavior_analysis = now;
    if behavior_score < anti_bot_config.suspicious_threshold as u32 {
        user_account.bot_flags = user_account.bot_flags + 1;
        if user_account.bot_flags >= MAX_BOT_FLAGS {
            user_account.cooling_period_end = now + anti_bot_config.cooling_period;
        }
    }
    Ok(behavior_score as u16)
}

/// Sessions of human length count for the user: with the same clicks and the same activity
/// times, an average session outside the human range (`MIN_HUMAN_SESSION_DURATION` to
/// `MAX_HUMAN_SESSION_DURATION` milliseconds) gives a behaviour score 17 or 18 points lower
/// than an average session inside it (sessions weigh 35%, scored 50 outside the range and 100
/// inside).
pub proof fn law_human_sessions_score_higher(
    clicks: Seq<u32>,
    human_sessions: Seq<u32>,
    odd_sessions: Seq<u32>,
    stamps: Seq<i64>,
)
    requires
        MIN_HUMAN_SESSION_DURATION <= spec_avg_session(human_sessions) <= MAX_HUMAN_SESSION_DURATION,
        !(MIN_HUMAN_SESSION_DURATION <= spec_avg_session(odd_sessions) <= MAX_HUMAN_SESSION_DURATION),
    ensures
        spec_behavior_score(clicks, human_sessions, stamps) - 18 <= spec_behavior_score(clicks, odd_sessions, stamps)
            <= spec_behavior_score(clicks, human_sessions, stamps) - 17,
{
    let a = spec_click_score(spec_variance(clicks)) * 30 + spec_temporal_score(stamps) * 35;
    assert((a + 3500) / 100 - 18 <= (a + 1750) / 100 <= (a + 3500) / 100 - 17) by (nonlinear_arith);
    assert(spec_behavior_score(clicks, human_sessions, stamps) == (a + 3500) / 100);
    assert(spec_behavior_score(clicks, odd_sessions, stamps) == (a + 1750) / 100);
}

/// Activity at a human pace counts for the user: with the same clicks and sessions, activity
/// times whose average gap lies in the human range (`MIN_HUMAN_ACTIVITY_INTERVAL` to
/// `MAX_HUMAN_ACTIVITY_INTERVAL` seconds) give a behaviour score 24 or 25 points higher than
/// times whose average gap lies outside it (timing weighs 35%, scored 100 inside the range and
/// 30 outside); a single activity or none scores the timing 50.
pub proof fn law_human_pace_scores_higher(
    clicks: Seq<u32>,
    sessions: Seq<u32>,
    human_stamps: Seq<i64>,
    odd_stamps: Seq<i64>,
)
    requires
        human_stamps.len() >= 2,
        MIN_HUMAN_ACTIVITY_INTERVAL <= trunc_div(human_stamps.last() - human_stamps[0], human_stamps.len() - 1)
            <= MAX_HUMAN_ACTIVITY_INTERVAL,
        odd_stamps.len() >= 2,
        !(MIN_HUMAN_ACTIVITY_INTERVAL <= trunc_div(odd_stamps.last() - odd_stamps[0], odd_stamps.len() - 1)
            <= MAX_HUMAN_ACTIVITY_INTERVAL),
    ensures
        spec_behavior_score(clicks, sessions, human_stamps) - 25 <= spec_behavior_score(clicks, sessions, odd_stamps)
            <= spec_behavior_score(clicks, sessions, human_stamps) - 24,
        forall|t: Seq<i64>| t.len() < 2 ==> #[trigger] spec_temporal_score(t) == 50,
{
    let a = spec_click_score(spec_variance(clicks)) * 30 + spec_session_score(spec_avg_session(sessions)) * 35;
    assert((a + 3500) / 100 - 25 <= (a + 1050) / 100 <= (a + 3500) / 100 - 24) by (nonlinear_arith);
    assert(spec_behavior_score(clicks, sessions, human_stamps) == (a + 3500) / 100);
    assert(spec_behavior_score(clicks, sessions, odd_stamps) == (a + 1050) / 100);
}

/// More varied clicks look more human: the click score is 0 up to a variance of
/// `MIN_HUMAN_CLICK_VARIANCE`, then grows by one point per `MAX_HUMAN_CLICK_VARIANCE / 100` of
/// variance above it, never falls as the variance grows, and stays at 100 from
/// `MIN_HUMAN_CLICK_VARIANCE + MAX_HUMAN_CLICK_VARIANCE` on.
pub proof fn law_varied_clicks_score_higher(v1: int, v2: int)
    requires
        v1 <= v2,
    ensures
        0 <= spec_click_score(v1) <= spec_click_score(v2) <= 100,
        v2 <= MIN_HUMAN_CLICK_VARIANCE ==> spec_click_score(v2) == 0,
        v2 >= MIN_HUMAN_CLICK_VARIANCE + MAX_HUMAN_CLICK_VARIANCE ==> spec_click_score(v2) == 100,
        MIN_HUMAN_CLICK_VARIANCE <= v1 && v1 + 500 <= MIN_HUMAN_CLICK_VARIANCE + MAX_HUMAN_CLICK_VARIANCE
            ==> spec_click_score(v1 + 500) == spec_click_score(v1) + 1,
{
    assert((v1 - 1000) * 100 / 50000 <= (v2 - 1000) * 100 / 50000) by (nonlinear_arith)
        requires
            v1 <= v2,
    ;
    if MIN_HUMAN_CLICK_VARIANCE <= v1 && v1 + 500 <= MIN_HUMAN_CLICK_VARIANCE + MAX_HUMAN_CLICK_VARIANCE {
        assert((v1 + 500 - 1000) * 100 / 50000 == (v1 - 1000) * 100 / 50000 + 1) by (nonlinear_arith)
            requires
                v1 >= 1000,
        ;
        assert((v1 - 1000) * 100 / 50000 < 100) by (nonlinear_arith)
            requires
                v1 + 500 <= 51000,
        ;
        if v1 == 1000 {
            assert((v1 + 500 - 1000) * 100 / 50000 == 1);
        }
    }
    if v2 >= 51000 {
        assert((v2 - 1000) * 100 / 50000 >= 100) by (nonlinear_arith)
            requires
                v2 >= 51000,
        ;
    }
}

} // verus!
