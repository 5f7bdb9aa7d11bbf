//! The integer decisions of content-quality and device assessment: which platforms are
//! assessed, when an assessment may be applied, and the flags, penalties and bans that
//! suspicious behaviour and risky devices lead to. The scores themselves are floating-point
//! and computed by the caller.
use vstd::prelude::*;

use crate::errors::FinovaError;
use crate::merkle::bytes32_eq;
use crate::text::str_eq;

verus! {

/// Age after which a quality assessment can no longer be applied, in seconds.
pub const MAX_QUALITY_ASSESSMENT_AGE: i64 = 86400;
/// Suspicious analyses after which a penalty applies.
pub const MAX_SUSPICIOUS_FLAGS: u32 = 5;
/// Reward multiplier under a penalty, in basis points (0.5x).
pub const SUSPICIOUS_ACTIVITY_PENALTY_BPS: u32 = 5000;
/// Length of a penalty, in seconds.
pub const PENALTY_DURATION: i64 = 604800;
/// Risky device checks after which the device is banned.
pub const MAX_DEVICE_RISK_FLAGS: u32 = 3;
/// Length of a device ban, in seconds.
pub const DEVICE_BAN_DURATION: i64 = 2592000;

/// The platforms whose content is assessed.
pub open spec fn is_supported_platform_name(p: Seq<char>) -> bool {
    p == "instagram"@ || p == "tiktok"@ || p == "youtube"@ || p == "facebook"@ || p == "twitter"@ || p == "x"@
}

/// Whether content of `platform` can be assessed.
pub fn is_supported_platform(platform: &str) -> (r: bool)
    ensures
        r == is_supported_platform_name(platform@),
{
    str_eq(platform, "instagram") || str_eq(platform, "tiktok") || str_eq(platform, "youtube") || str_eq(
        platform,
        "facebook",
    ) || str_eq(platform, "twitter") || str_eq(platform, "x")
}

/// Checks that content of `platform` can be assessed (`UnsupportedPlatform` otherwise).
pub fn check_platform(platform: &str) -> (res: Result<(), FinovaError>)
    ensures
        res == (if is_supported_platform_name(platform@) {
            Ok::<(), FinovaError>(())
        } else {
            Err(FinovaError::UnsupportedPlatform)
        }),
{
    if !is_supported_platform(platform) {
        return Err(FinovaError::UnsupportedPlatform);
    }
    Ok(())
}

/// Checks that an assessment may be applied at `now` for `authority`: it must be the
/// authority's own (`UnauthorizedQualityAssessment`) and at most a day old
/// (`ExpiredQualityAssessment`).
pub fn check_quality_assessment(assessor: &[u8; 32], authority: &[u8; 32], created_at: i64, now: i64) -> (res: Result<
    (),
    FinovaError,
>)
    requires
        i64::MIN <= now - created_at <= i64::MAX,
    ensures
        res == (if *assessor != *authority {
            Err(FinovaError::UnauthorizedQualityAssessment)
        } else if now - created_at > MAX_QUALITY_ASSESSMENT_AGE {
            Err(FinovaError::ExpiredQualityAssessment)
        } else {
            Ok(())
        }),
{
    if !bytes32_eq(assessor, authority) {
        return Err(FinovaError::UnauthorizedQualityAssessment);
    }
    let assessment_age = now - created_at;
    if assessment_age > MAX_QUALITY_ASSESSMENT_AGE {
        return Err(FinovaError::ExpiredQualityAssessment);
    }
    Ok(())
}

/// A user's record of suspicious behaviour and risky devices.
#[derive(Clone, Copy, Debug)]
pub struct RiskRecord {
    pub suspicious_activity_flags: u32,
    pub last_suspicious_activity: i64,
    /// Reward multiplier while penalised, in basis points.
    pub penalty_multiplier_bps: u32,
    pub penalty_expires_at: i64,
    pub device_risk_flags: u32,
    pub device_banned: bool,
    pub device_ban_expires_at: i64,
}

/// Records the outcome of a behaviour analysis at `now`: a suspicious one adds a flag, and
/// from the fifth flag the user is penalised to half rewards for a week.
pub fn record_behavior_outcome(record: &mut RiskRecord, is_suspicious: bool, now: i64)
    requires
        old(record).suspicious_activity_flags < u32::MAX,
        now + PENALTY_DURATION <= i64::MAX,
    ensures
        !is_suspicious ==> *final(record) == *old(record),
        is_suspicious ==> {
            let flags = old(record).suspicious_activity_flags + 1;
            *final(record) == RiskRecord {
                suspicious_activity_flags: flags as u32,
                last_suspicious_activity: now,
                penalty_multiplier_bps: if flags >= MAX_SUSPICIOUS_FLAGS {
                    SUSPICIOUS_ACTIVITY_PENALTY_BPS
                } else {
                    old(record).penalty_multiplier_bps
                },
                penalty_expires_at: if flags >= MAX_SUSPICIOUS_FLAGS {
                    (now + PENALTY_DURATION) as i64
                } else {
                    old(record).penalty_expires_at
                },
                ..*old(record)
            }
        },
{
    if is_suspicious {
        record.suspicious_activity_flags = record.suspicious_activity_flags + 1;
        record.last_suspicious_activity = now;
        if record.suspicious_activity_flags >= MAX_SUSPICIOUS_FLAGS {
            record.penalty_multiplier_bps = SUSPICIOUS_ACTIVITY_PENALTY_BPS;
            record.penalty_expires_at = now + PENALTY_DURATION;
        }
    }
}

/// Records the outcome of a device check at `now`: a risky device (too little authenticity or
/// consistency) adds a flag, and from the third flag the device is banned for thirty days.
pub fn record_device_outcome(record: &mut RiskRecord, is_risky: bool, now: i64)
    requires
        old(record).device_risk_flags < u32::MAX,
        now + DEVICE_BAN_DURATION <= i64::MAX,
    ensures
        !is_risky ==> *final(record) == *old(record),
        is_risky ==> {
            let flags = old(record).device_risk_flags + 1;
            *final(record) == RiskRecord {
                device_risk_flags: flags as u32,
                device_banned: if flags >= MAX_DEVICE_RISK_FLAGS { true } else { old(record).device_banned },
                device_ban_expires_at: if flags >= MAX_DEVICE_RISK_FLAGS {
                    (now + DEVICE_BAN_DURATION) as i64
                } else {
                    old(record).device_ban_expires_at
                },
                ..*old(record)
            }
        },
{
    if is_risky {
        record.device_risk_flags = record.device_risk_flags + 1;
        if record.device_risk_flags >= MAX_DEVICE_RISK_FLAGS {
            record.device_banned = true;
            record.device_ban_expires_at = now + DEVICE_BAN_DURATION;
        }
    }
}

} // verus!
