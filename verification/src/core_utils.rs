//! Checks shared by the instructions of the core program, and the arithmetic of days,
//! multipliers, decay and regression that they use.
use vstd::prelude::*;

use crate::core_state::{GlobalConfig, UserAccount, XPAccount};
use crate::errors::FinovaError;
use crate::hashing::{append_bytes, keccak256, le_bytes, push_le_bytes, spec_keccak256};
use crate::merkle::bytes32_eq;
use vstd::string::StringSliceAdditionalSpecFns;

use crate::text::{all_alphanumeric, is_trimmed, spec_is_alphanumeric, trimmed};

verus! {

/// One in basis points.
pub const BASIS_POINTS: u16 = 10000;
/// Seconds in a day.
pub const DAY_SECONDS: i64 = 86400;
/// Bot likelihood, in basis points, from which a user counts as a bot.
pub const BOT_THRESHOLD: u16 = 8000;
/// Tolerance, in seconds, for a mining session that ends after the current time.
pub const SESSION_END_TOLERANCE: i64 = 300;
/// Holdings, in lamports, above which the whale regression applies (100 000 FIN).
pub const WHALE_THRESHOLD: u64 = 100_000_000_000_000;
/// Lamports in one FIN.
pub const LAMPORTS_PER_FIN: u64 = 1_000_000_000;

/// A check of an instruction's context, implemented by the instructions' account structs.
pub trait InstructionContext {
    /// Validates the instruction context.
    fn validate(&self) -> Result<(), FinovaError>;

    /// Checks whether `user` may perform the action.
    fn check_authorization(&self, user: &[u8; 32]) -> Result<(), FinovaError>;
}

/// `Ok` when `cond` holds, else `Err(error)`.
pub open spec fn require(cond: bool, error: FinovaError) -> Result<(), FinovaError> {
    if cond {
        Ok(())
    } else {
        Err(error)
    }
}

/// The account must be initialized.
pub fn validate_user_account(user_account: &UserAccount) -> (res: Result<(), FinovaError>)
    ensures
        res == require(user_account.is_initialized, FinovaError::UserNotInitialized),
{
    if !user_account.is_initialized {
        return Err(FinovaError::UserNotInitialized);
    }
    Ok(())
}

/// The user must be KYC verified.
pub fn validate_kyc_required(user_account: &UserAccount) -> (res: Result<(), FinovaError>)
    ensures
        res == require(user_account.kyc_verified, FinovaError::KYCRequired),
{
    if !user_account.kyc_verified {
        return Err(FinovaError::KYCRequired);
    }
    Ok(())
}

/// The program must be operational.
pub fn validate_system_operational(global_config: &GlobalConfig) -> (res: Result<(), FinovaError>)
    ensures
        res == require(!global_config.is_paused && !global_config.emergency_stop, FinovaError::SystemPaused),
{
    if !global_config.is_operational() {
        return Err(FinovaError::SystemPaused);
    }
    Ok(())
}

/// The user must have at least `min_xp` XP.
pub fn validate_xp_requirement(user_account: &UserAccount, xp_account: &XPAccount, min_xp: u64) -> (res: Result<
    (),
    FinovaError,
>)
    ensures
        res == require(xp_account.total_xp >= min_xp, FinovaError::InsufficientXP),
{
    if xp_account.total_xp < min_xp {
        return Err(FinovaError::InsufficientXP);
    }
    Ok(())
}

/// The user's bot likelihood must be under 80%.
pub fn validate_not_bot(user_account: &UserAccount) -> (res: Result<(), FinovaError>)
    ensures
        res == require(user_account.bot_probability < BOT_THRESHOLD, FinovaError::BotDetected),
{
    if user_account.bot_probability >= BOT_THRESHOLD {
        return Err(FinovaError::BotDetected);
    }
    Ok(())
}

/// The user's cooldown must be over at `now`.
pub fn validate_not_in_cooldown(user_account: &UserAccount, now: i64) -> (res: Result<(), FinovaError>)
    ensures
        res == require(now >= user_account.cooldown_until, FinovaError::UserInCooldown),
{
    if now < user_account.cooldown_until {
        return Err(FinovaError::UserInCooldown);
    }
    Ok(())
}

/// `current_count` must be under `max_count`; otherwise `error`.
pub fn validate_daily_limit(current_count: u32, max_count: u32, error: FinovaError) -> (res: Result<
    (),
    FinovaError,
>)
    ensures
        res == require(current_count < max_count, error),
{
    if current_count >= max_count {
        return Err(error);
    }
    Ok(())
}

/// `timestamp` must lie within `max_drift` seconds of `now`, on either side.
pub fn validate_timestamp(timestamp: i64, max_drift: i64, now: i64) -> (res: Result<(), FinovaError>)
    requires
        i64::MIN < now - timestamp <= i64::MAX,
    ensures
        res == require(
            (if now >= timestamp { now - timestamp } else { timestamp - now }) <= max_drift,
            FinovaError::InvalidTimestamp,
        ),
{
    let diff = now - timestamp;
    let time_diff = if diff < 0 { -diff } else { diff };
    if time_diff > max_drift {
        return Err(FinovaError::InvalidTimestamp);
    }
    Ok(())
}

/// `amount` must lie in `[min_amount, max_amount]`.
pub fn validate_amount_limits(amount: u64, min_amount: u64, max_amount: u64) -> (res: Result<(), FinovaError>)
    ensures
        res == require(min_amount <= amount && amount <= max_amount, FinovaError::InvalidAmount),
{
    if !(amount >= min_amount && amount <= max_amount) {
        return Err(FinovaError::InvalidAmount);
    }
    Ok(())
}

/// A referral code of 6 to 12 bytes, all characters alphanumeric.
pub open spec fn is_well_formed_code(code: &str) -> bool {
    &&& 6 <= code.len() <= 12
    &&& forall|i: int| 0 <= i < code@.len() ==> spec_is_alphanumeric(#[trigger] code@[i])
}

/// The code must be a well-formed referral code.
pub fn validate_referral_code(code: &str) -> (res: Result<(), FinovaError>)
    ensures
        res == require(is_well_formed_code(code), FinovaError::InvalidReferralCode),
{
    if !(code.len() >= 6 && code.len() <= 12) {
        return Err(FinovaError::InvalidReferralCode);
    }
    if !all_alphanumeric(code) {
        return Err(FinovaError::InvalidReferralCode);
    }
    Ok(())
}

/// The platform must be one of the known ones (0 to 6).
pub fn validate_social_platform(platform: u8) -> (res: Result<(), FinovaError>)
    ensures
        res == require(platform <= 6, FinovaError::InvalidSocialPlatform),
{
    if platform > 6 {
        return Err(FinovaError::InvalidSocialPlatform);
    }
    Ok(())
}

/// The content type must be one of the known ones (0 to 10).
pub fn validate_content_type(content_type: u8) -> (res: Result<(), FinovaError>)
    ensures
        res == require(content_type <= 10, FinovaError::InvalidContentType),
{
    if content_type > 10 {
        return Err(FinovaError::InvalidContentType);
    }
    Ok(())
}

/// A guild name of 3 to 32 bytes without leading or trailing whitespace.
pub open spec fn is_valid_guild_name(name: &str) -> bool {
    &&& 3 <= name.len() <= 32
    &&& name@.len() > 0
    &&& is_trimmed(name@)
}

/// The guild name must be valid.
pub fn validate_guild_name(name: &str) -> (res: Result<(), FinovaError>)
    ensures
        res == require(is_valid_guild_name(name), FinovaError::InvalidGuildName),
{
    if !(name.len() >= 3 && name.len() <= 32) {
        return Err(FinovaError::InvalidGuildName);
    }
    if name.is_empty() || !trimmed(name) {
        return Err(FinovaError::InvalidGuildName);
    }
    Ok(())
}

/// The user must have reached `required_level`.
pub fn validate_level_requirement(xp_account: &XPAccount, required_level: u16) -> (res: Result<(), FinovaError>)
    ensures
        res == require(xp_account.current_level >= required_level, FinovaError::InsufficientLevel),
{
    if xp_account.current_level < required_level as u32 {
        return Err(FinovaError::InsufficientLevel);
    }
    Ok(())
}

/// Accepts any signature of 64 bytes: the signature itself is checked by the runtime's
/// signature programs, not here.
pub fn validate_signature(message: &[u8], signature: &[u8; 64], signer: &[u8; 32]) -> (res: Result<
    (),
    FinovaError,
>)
    ensures
        res is Ok,
{
    Ok(())
}

/// The network quality must reach `min_quality`.
pub fn validate_network_quality(quality_score: u16, min_quality: u16) -> (res: Result<(), FinovaError>)
    ensures
        res == require(quality_score >= min_quality, FinovaError::InsufficientNetworkQuality),
{
    if quality_score < min_quality {
        return Err(FinovaError::InsufficientNetworkQuality);
    }
    Ok(())
}

/// The stake must reach `min_amount` and last between 1 and `max_duration` days.
pub fn validate_staking_params(amount: u64, duration_days: u16, min_amount: u64, max_duration: u16) -> (res:
    Result<(), FinovaError>)
    ensures
        res == (if amount < min_amount {
            Err(FinovaError::InsufficientStakeAmount)
        } else {
            require(0 < duration_days && duration_days <= max_duration, FinovaError::InvalidStakeDuration)
        }),
{
    if amount < min_amount {
        return Err(FinovaError::InsufficientStakeAmount);
    }
    if !(duration_days > 0 && duration_days <= max_duration) {
        return Err(FinovaError::InvalidStakeDuration);
    }
    Ok(())
}

/// The account must be owned by `expected_owner`.
pub fn validate_account_owner(owner: &[u8; 32], expected_owner: &[u8; 32]) -> (res: Result<(), FinovaError>)
    ensures
        res == require(*owner == *expected_owner, FinovaError::InvalidAccountOwner),
{
    if !bytes32_eq(owner, expected_owner) {
        return Err(FinovaError::InvalidAccountOwner);
    }
    Ok(())
}

/// The account must hold at least `required_lamports`.
pub fn validate_sufficient_lamports(lamports: u64, required_lamports: u64) -> (res: Result<(), FinovaError>)
    ensures
        res == require(lamports >= required_lamports, FinovaError::InsufficientLamports),
{
    if lamports < required_lamports {
        return Err(FinovaError::InsufficientLamports);
    }
    Ok(())
}

/// Quality scores are basis points: none may exceed 10 000.
pub fn validate_quality_scores(originality: u16, engagement: u16, brand_safety: u16, ai_score: u16) -> (res:
    Result<(), FinovaError>)
    ensures
        res == require(
            originality <= 10000 && engagement <= 10000 && brand_safety <= 10000 && ai_score <= 10000,
            FinovaError::InvalidQualityScore,
        ),
{
    if !(originality <= 10000 && engagement <= 10000 && brand_safety <= 10000 && ai_score <= 10000) {
        return Err(FinovaError::InvalidQualityScore);
    }
    Ok(())
}

/// A mining session must have started by `now`, last at most `max_session_duration` seconds
/// and end no more than five minutes after `now`.
pub fn validate_mining_session(session_start: i64, session_duration: u32, max_session_duration: u32, now: i64) -> (res:
    Result<(), FinovaError>)
    requires
        now + SESSION_END_TOLERANCE <= i64::MAX,
        session_start <= now && session_duration <= max_session_duration ==> session_start + session_duration
            <= i64::MAX,
    ensures
        res == (if session_start > now {
            Err(FinovaError::InvalidSessionStart)
        } else if session_duration > max_session_duration {
            Err(FinovaError::SessionTooLong)
        } else {
            require(session_start + session_duration <= now + SESSION_END_TOLERANCE, FinovaError::InvalidSessionDuration)
        }),
{
    if session_start > now {
        return Err(FinovaError::InvalidSessionStart);
    }
    if session_duration > max_session_duration {
        return Err(FinovaError::SessionTooLong);
    }
    let session_end = session_start + session_duration as i64;
    if session_end > now + SESSION_END_TOLERANCE {
        return Err(FinovaError::InvalidSessionDuration);
    }
    Ok(())
}

/// A referral network may not exceed `max_network_size` members or `max_depth` levels.
pub fn validate_referral_network(network_size: u32, network_depth: u8, max_network_size: u32, max_depth: u8) -> (res:
    Result<(), FinovaError>)
    ensures
        res == (if network_size > max_network_size {
            Err(FinovaError::NetworkTooLarge)
        } else {
            require(network_depth <= max_depth, FinovaError::NetworkTooDeep)
        }),
{
    if network_size > max_network_size {
        return Err(FinovaError::NetworkTooLarge);
    }
    if network_depth > max_depth {
        return Err(FinovaError::NetworkTooDeep);
    }
    Ok(())
}

/// The remainder of `t` by a day, with the sign of `t` (Rust's `%`).
pub open spec fn day_rem(t: i64) -> int {
    if t >= 0 {
        t as int % 86400
    } else {
        -((-(t as int)) % 86400)
    }
}

/// The start of the day of `timestamp`: the timestamp less its remainder by a day.
pub open spec fn spec_start_of_day(timestamp: i64) -> int {
    timestamp - day_rem(timestamp)
}

/// The start of the day of `timestamp`.
pub fn start_of_day(timestamp: i64) -> (start: i64)
    ensures
        start == spec_start_of_day(timestamp),
{
    timestamp - (timestamp % DAY_SECONDS)
}

/// Whether two timestamps fall on the same day.
pub fn is_same_day(timestamp1: i64, timestamp2: i64) -> (same: bool)
    ensures
        same == (spec_start_of_day(timestamp1) == spec_start_of_day(timestamp2)),
{
    start_of_day(timestamp1) == start_of_day(timestamp2)
}

/// The product of five multipliers in basis points, back in basis points.
pub open spec fn spec_mining_multiplier(a: u16, b: u16, c: u16, d: u16, e: u16) -> int {
    a * b * c * d * e / 10000000000000000
}

/// The product of five multipliers in basis points, back in basis points.
pub fn calculate_mining_multiplier(
    base_multiplier: u16,
    xp_multiplier: u16,
    rp_multiplier: u16,
    quality_multiplier: u16,
    kyc_bonus: u16,
) -> (m: u64)
    ensures
        m == spec_mining_multiplier(base_multiplier, xp_multiplier, rp_multiplier, quality_multiplier, kyc_bonus),
{
    let a = base_multiplier as u128;
    let b = xp_multiplier as u128;
    let c = rp_multiplier as u128;
    let d = quality_multiplier as u128;
    let e = kyc_bonus as u128;
    proof {
        assert(a * b <= 65535 * 65535) by (nonlinear_arith)
            requires
                a <= 65535,
                b <= 65535,
        ;
        assert(a * b * c <= 65535 * 65535 * 65535) by (nonlinear_arith)
            requires
                a * b <= 65535 * 65535,
                c <= 65535,
        ;
        assert(a * b * c * d <= 65535 * 65535 * 65535 * 65535) by (nonlinear_arith)
            requires
                a * b * c <= 65535 * 65535 * 65535,
                d <= 65535,
        ;
        assert(a * b * c * d * e <= 65535 * 65535 * 65535 * 65535 * 65535) by (nonlinear_arith)
            requires
                a * b * c * d <= 65535 * 65535 * 65535 * 65535,
                e <= 65535,
        ;
    }
    let total = a * b * c * d * e;
    (total / 10000000000000000u128) as u64
}

/// `x * y`, or `u64::MAX` when that overflows.
pub open spec fn saturating_product(x: u64, y: u64) -> int {
    if x * y <= u64::MAX {
        x * y
    } else {
        u64::MAX as int
    }
}

/// The share of rewards kept, in basis points, by a holder of `holdings` lamports: each whole
/// FIN held takes `regression_rate` ten-thousandths of a basis point, down to a floor of 1.
pub open spec fn spec_regression_factor(holdings: u64, regression_rate: u16) -> int {
    let decay = saturating_product(holdings / 1_000_000_000, regression_rate as u64) / 10000;
    if decay >= 10000 {
        1
    } else if 10000 - decay >= 1 {
        10000 - decay
    } else {
        1
    }
}

/// The share of rewards kept by a holder of `holdings` lamports, in basis points.
pub fn calculate_regression_factor(holdings: u64, regression_rate: u16) -> (factor: u16)
    ensures
        factor == spec_regression_factor(holdings, regression_rate),
{
    let scaled_holdings = holdings / LAMPORTS_PER_FIN;
    let product: u64 = match scaled_holdings.checked_mul(regression_rate as u64) {
        Some(p) => p,
        None => u64::MAX,
    };
    let decay_factor = product / BASIS_POINTS as u64;
    if decay_factor >= 10000 {
        1
    } else {
        let kept = 10000 - decay_factor as u16;
        if kept >= 1 { kept } else { 1 }
    }
}

/// `r` decayed `hours` times by `rate` ten-thousandths, rounding down at each hour.
pub open spec fn decayed(r: int, rate: int, hours: nat) -> int
    decreases hours,
{
    if hours == 0 {
        r
    } else {
        decayed(r * rate / 10000, rate, (hours - 1) as nat)
    }
}

/// Nothing decays from zero.
pub proof fn lemma_decayed_zero(rate: int, hours: nat)
    requires
        rate >= 0,
    ensures
        decayed(0, rate, hours) == 0,
    decreases hours,
{
    if hours > 0 {
        lemma_decayed_zero(rate, (hours - 1) as nat);
    }
}

/// A rate of at least one keeps a value of at least one in basis points.
pub proof fn lemma_decayed_no_loss(r: int, rate: int, hours: nat)
    requires
        r >= 10000,
        rate >= 10000,
    ensures
        decayed(r, rate, hours) >= 10000,
    decreases hours,
{
    if hours > 0 {
        assert(r * rate / 10000 >= r) by (nonlinear_arith)
            requires
                r >= 10000,
                rate >= 10000,
        ;
        lemma_decayed_no_loss(r * rate / 10000, rate, (hours - 1) as nat);
    }
}

/// Whole hours from `last_activity` to `current_time`, rounded toward zero.
pub open spec fn hours_between(last_activity: i64, current_time: i64) -> int {
    let d = current_time - last_activity;
    if d >= 0 {
        d / 3600
    } else {
        -((-d) / 3600)
    }
}

/// What is left, in basis points, of a bonus after the whole hours since `last_activity`: one
/// basis-point unit decayed by `(decay_rate / 10000)^hours`, kept between 1 and 10 000.
pub open spec fn spec_time_decay(last_activity: i64, current_time: i64, decay_rate: u16) -> int {
    let hours = hours_between(last_activity, current_time);
    if hours <= 0 {
        10000
    } else {
        let v = decayed(10000, decay_rate as int, hours as nat);
        if v < 1 {
            1
        } else if v > 10000 {
            10000
        } else {
            v
        }
    }
}

/// What is left, in basis points, of a bonus after the whole hours since `last_activity`.
pub fn calculate_time_decay(last_activity: i64, current_time: i64, decay_rate: u16) -> (factor: u16)
    requires
        i64::MIN <= current_time - last_activity <= i64::MAX,
    ensures
        factor == spec_time_decay(last_activity, current_time, decay_rate),
        1 <= factor <= BASIS_POINTS,
{
    let time_diff = current_time - last_activity;
    let hours_passed = time_diff / 3600;
    if hours_passed <= 0 {
        return BASIS_POINTS;
    }
    let hours = hours_passed as u64;
    if decay_rate >= BASIS_POINTS {
        proof {
            lemma_decayed_no_loss(10000, decay_rate as int, hours as nat);
        }
        return BASIS_POINTS;
    }
    let mut r: u64 = 10000;
    let mut i: u64 = 0;
    while i < hours && r > 0
        invariant
            i <= hours,
            r <= 10000,
            decay_rate < 10000,
            decayed(10000, decay_rate as int, hours as nat) == decayed(r as int, decay_rate as int, (hours - i) as nat),
        decreases hours - i,
    {
        proof {
            assert(r * decay_rate as u64 <= 10000 * 10000) by (nonlinear_arith)
                requires
                    r <= 10000,
                    decay_rate < 10000,
            ;
        }
        let next = r * decay_rate as u64 / 10000;
        proof {
            assert(next <= r) by (nonlinear_arith)
                requires
                    next == r * decay_rate as u64 / 10000,
                    decay_rate < 10000,
            ;
        }
        r = next;
        i = i + 1;
    }
    if r == 0 {
        proof {
            lemma_decayed_zero(decay_rate as int, (hours - i) as nat);
        }
        1
    } else {
        r as u16
    }
}

/// The seed bytes of a program address: the base text, the user key, and the counter in
/// little-endian order.
pub fn generate_pda_seed(base: &str, user: &[u8; 32], counter: u64) -> (seed: Vec<u8>)
    ensures
        seed@ == base.spec_bytes() + user@ + le_bytes(counter, 8),
{
    let mut seed: Vec<u8> = Vec::new();
    append_bytes(&mut seed, base.as_bytes());
    append_bytes(&mut seed, user);
    push_le_bytes(&mut seed, counter, 8);
    seed
}

/// The growth bonus of a network: `growth_rate` hundredths per member, capped at `max_bonus`.
pub open spec fn spec_network_growth_bonus(network_size: u32, growth_rate: u16, max_bonus: u16) -> int {
    let bonus = network_size * growth_rate / 100;
    if bonus < max_bonus {
        bonus
    } else {
        max_bonus as int
    }
}

/// The growth bonus of a network of `network_size` members.
pub fn calculate_network_growth_bonus(network_size: u32, growth_rate: u16, max_bonus: u16) -> (bonus: u16)
    ensures
        bonus == spec_network_growth_bonus(network_size, growth_rate, max_bonus),
{
    proof {
        assert(network_size as u64 * growth_rate as u64 <= 4294967295 * 65535) by (nonlinear_arith);
    }
    let bonus: u64 = (network_size as u64 * growth_rate as u64) / 100;
    if bonus < max_bonus as u64 { bonus as u16 } else { max_bonus }
}

/// The virality multiplier, in basis points, of content by its engagement per thousand views:
/// likes count once, comments twice and shares three times.
pub open spec fn spec_virality_multiplier(views: u64, likes: u32, shares: u32, comments: u32) -> u16 {
    let engagement = likes + shares * 3 + comments * 2;
    let ratio = if views > 0 { engagement * 1000 / views as int } else { 0 };
    if ratio <= 100 {
        10000
    } else if ratio <= 500 {
        12000
    } else if ratio <= 1000 {
        15000
    } else if ratio <= 2000 {
        20000
    } else {
        30000
    }
}

/// The virality multiplier of content, in basis points.
pub fn calculate_virality_multiplier(views: u64, likes: u32, shares: u32, comments: u32) -> (m: u16)
    ensures
        m == spec_virality_multiplier(views, likes, shares, comments),
{
    let engagement_score: u64 = likes as u64 + shares as u64 * 3 + comments as u64 * 2;
    let virality_ratio: u64 = if views > 0 {
        (engagement_score * 1000) / views
    } else {
        0
    };
    if virality_ratio <= 100 {
        BASIS_POINTS
    } else if virality_ratio <= 500 {
        BASIS_POINTS + 2000
    } else if virality_ratio <= 1000 {
        BASIS_POINTS + 5000
    } else if virality_ratio <= 2000 {
        20000
    } else {
        30000
    }
}

/// The level multiplier, in basis points: 1.0x up to level 10, then rising evenly to 1.8x at
/// level 25, 2.5x at 50, 3.2x at 75 and 4.0x at 100, then 0.001x per level up to 5.0x.
pub open spec fn spec_level_multiplier(level: u16) -> int {
    if level <= 10 {
        10000
    } else if level <= 25 {
        12000 + (level - 11) * 6000 / 14
    } else if level <= 50 {
        18000 + (level - 26) * 7000 / 24
    } else if level <= 75 {
        25000 + (level - 51) * 7000 / 24
    } else if level <= 100 {
        32000 + (level - 76) * 8000 / 24
    } else if 40000 + (level - 100) * 10 <= 50000 {
        40000 + (level - 100) * 10
    } else {
        50000
    }
}

/// The level multiplier, in basis points.
pub fn calculate_level_multiplier(level: u16) -> (m: u16)
    ensures
        m == spec_level_multiplier(level),
        BASIS_POINTS <= m <= 50000,
{
    let l = level as u32;
    let m: u32 = if l <= 10 {
        10000
    } else if l <= 25 {
        12000 + (l - 11) * 6000 / 14
    } else if l <= 50 {
        18000 + (l - 26) * 7000 / 24
    } else if l <= 75 {
        25000 + (l - 51) * 7000 / 24
    } else if l <= 100 {
        32000 + (l - 76) * 8000 / 24
    } else if l <= 1100 {
        40000 + (l - 100) * 10
    } else {
        50000
    };
    m as u16
}

/// The whale regression, in basis points: none up to the threshold, then one basis point less
/// per whole FIN above it, down to at most a 90% reduction (1 000).
pub open spec fn spec_whale_regression(total_holdings: u64) -> int {
    if total_holdings <= WHALE_THRESHOLD {
        10000
    } else {
        let excess = ((total_holdings - WHALE_THRESHOLD) / 1_000_000_000) as int;
        let cut = if excess < 9000 { excess } else { 9000 };
        10000 - cut
    }
}

/// The whale regression of `total_holdings` lamports, in basis points.
pub fn calculate_whale_regression(total_holdings: u64) -> (r: u16)
    ensures
        r == spec_whale_regression(total_holdings),
        1000 <= r <= BASIS_POINTS,
{
    if total_holdings <= WHALE_THRESHOLD {
        return BASIS_POINTS;
    }
    let excess_holdings = total_holdings - WHALE_THRESHOLD;
    let whole = excess_holdings / LAMPORTS_PER_FIN;
    let regression_factor: u16 = if whole < 9000 { whole as u16 } else { 9000 };
    BASIS_POINTS - regression_factor
}

/// Anti-whale: more holdings never earn a smaller regression, and the reduction never exceeds
/// 90%.
pub proof fn law_whale_regression_monotone(h1: u64, h2: u64)
    requires
        h1 <= h2,
    ensures
        spec_whale_regression(h2) <= spec_whale_regression(h1),
        1000 <= spec_whale_regression(h2) <= 10000,
{
    if h1 > WHALE_THRESHOLD {
        assert((h1 - WHALE_THRESHOLD) / 1_000_000_000 <= (h2 - WHALE_THRESHOLD) / 1_000_000_000) by (nonlinear_arith)
            requires
                h1 - WHALE_THRESHOLD <= h2 - WHALE_THRESHOLD,
                h1 > WHALE_THRESHOLD,
        ;
    }
}

/// The bytes hashed for a deterministic random number.
pub open spec fn random_input(user: [u8; 32], timestamp: i64, nonce: u64) -> Seq<u8> {
    user@ + le_bytes(timestamp as u64, 8) + le_bytes(nonce, 8)
}

/// The first eight bytes of a digest, read as a little-endian number.
pub open spec fn le_u64(d: [u8; 32]) -> int {
    d[0] + d[1] * 0x100 + d[2] * 0x10000 + d[3] * 0x1000000 + d[4] * 0x100000000 + d[5] * 0x10000000000
        + d[6] * 0x1000000000000 + d[7] * 0x100000000000000
}

/// A number derived from the user, the time and a nonce: the first eight bytes, little-endian,
/// of the Keccak-256 digest of the key, the timestamp and the nonce (both little-endian).
pub fn generate_deterministic_random(user: &[u8; 32], timestamp: i64, nonce: u64) -> (r: u64)
    ensures
        r == le_u64(spec_keccak256(random_input(*user, timestamp, nonce))),
{
    let mut input: Vec<u8> = Vec::new();
    append_bytes(&mut input, user);
    push_le_bytes(&mut input, timestamp as u64, 8);
    push_le_bytes(&mut input, nonce, 8);
    let hash = keccak256(input.as_slice());
    hash[0] as u64 + hash[1] as u64 * 0x100 + hash[2] as u64 * 0x10000 + hash[3] as u64 * 0x1000000
        + hash[4] as u64 * 0x100000000 + hash[5] as u64 * 0x10000000000 + hash[6] as u64 * 0x1000000000000
        + hash[7] as u64 * 0x100000000000000
}

/// Who administers the program, and whether it is paused.
#[derive(Clone, Copy, Debug)]
pub struct ProgramControl {
    pub admin: [u8; 32],
    pub is_paused: bool,
}

/// Pauses the program on the admin's request (`UnauthorizedAccess` otherwise, with nothing
/// changed).
pub fn emergency_pause(network_state: &mut ProgramControl, authority: &[u8; 32]) -> (res: Result<(), FinovaError>)
    ensures
        res == require(*authority == old(network_state).admin, FinovaError::UnauthorizedAccess),
        final(network_state).admin == old(network_state).admin,
        final(network_state).is_paused == (if res is Ok { true } else { old(network_state).is_paused }),
{
    if !bytes32_eq(authority, &network_state.admin) {
        return Err(FinovaError::UnauthorizedAccess);
    }
    network_state.is_paused = true;
    Ok(())
}

/// Resumes the program on the admin's request (`UnauthorizedAccess` otherwise, with nothing
/// changed).
pub fn resume_operations(network_state: &mut ProgramControl, authority: &[u8; 32]) -> (res: Result<(), FinovaError>)
    ensures
        res == require(*authority == old(network_state).admin, FinovaError::UnauthorizedAccess),
        final(network_state).admin == old(network_state).admin,
        final(network_state).is_paused == (if res is Ok { false } else { old(network_state).is_paused }),
{
    if !bytes32_eq(authority, &network_state.admin) {
        return Err(FinovaError::UnauthorizedAccess);
    }
    network_state.is_paused = false;
    Ok(())
}

/// Decaying from a larger value never leaves less.
proof fn lemma_decayed_monotone_in_value(r1: int, r2: int, rate: int, hours: nat)
    requires
        0 <= r1 <= r2,
        rate >= 0,
    ensures
        0 <= decayed(r1, rate, hours) <= decayed(r2, rate, hours),
    decreases hours,
{
    if hours > 0 {
        assert(0 <= r1 * rate / 10000 <= r2 * rate / 10000) by (nonlinear_arith)
            requires
                0 <= r1 <= r2,
                rate >= 0,
        ;
        lemma_decayed_monotone_in_value(r1 * rate / 10000, r2 * rate / 10000, rate, (hours - 1) as nat);
    }
}

/// At a rate of at most one, decaying for longer never leaves more.
proof fn lemma_decayed_monotone_in_hours(r: int, rate: int, h1: nat, h2: nat)
    requires
        r >= 0,
        0 <= rate <= 10000,
        h1 <= h2,
    ensures
        decayed(r, rate, h2) <= decayed(r, rate, h1),
    decreases h2,
{
    if h2 > h1 {
        let next = r * rate / 10000;
        assert(0 <= next <= r) by (nonlinear_arith)
            requires
                r >= 0,
                0 <= rate <= 10000,
                next == r * rate / 10000,
        ;
        lemma_decayed_monotone_in_value(next, r, rate, (h2 - 1) as nat);
        lemma_decayed_monotone_in_hours(r, rate, h1, (h2 - 1) as nat);
    }
}

/// The longer since the last activity, the less of a bonus is left.
pub proof fn law_time_decay_monotone(last_activity: i64, t1: i64, t2: i64, decay_rate: u16)
    requires
        t1 <= t2,
        i64::MIN <= t1 - last_activity <= i64::MAX,
        i64::MIN <= t2 - last_activity <= i64::MAX,
    ensures
        spec_time_decay(last_activity, t2, decay_rate) <= spec_time_decay(last_activity, t1, decay_rate),
{
    let h1 = hours_between(last_activity, t1);
    let h2 = hours_between(last_activity, t2);
    assert(h1 <= h2);
    if h1 > 0 {
        if decay_rate <= 10000 {
            lemma_decayed_monotone_in_hours(10000, decay_rate as int, h1 as nat, h2 as nat);
        } else {
            lemma_decayed_no_loss(10000, decay_rate as int, h1 as nat);
            lemma_decayed_no_loss(10000, decay_rate as int, h2 as nat);
        }
    } else if h2 > 0 {
        if decay_rate > 10000 {
            lemma_decayed_no_loss(10000, decay_rate as int, h2 as nat);
        }
    }
}

/// The start of a day is its own start: each timestamp falls on exactly one day, so being on
/// the same day is an equivalence.
pub proof fn law_start_of_day_idempotent(t: i64)
    ensures
        i64::MIN <= spec_start_of_day(t) <= i64::MAX,
        spec_start_of_day(spec_start_of_day(t) as i64) == spec_start_of_day(t),
{
    if t >= 0 {
        let q = t as int / 86400;
        assert(spec_start_of_day(t) == 86400 * q) by (nonlinear_arith)
            requires
                q == t as int / 86400,
                t >= 0,
                spec_start_of_day(t) == t - t as int % 86400,
        ;
        assert((86400 * q) % 86400 == 0) by (nonlinear_arith)
            requires
                q >= 0,
        ;
    } else {
        let u = -(t as int);
        let q = u / 86400;
        assert(spec_start_of_day(t) == -(86400 * q)) by (nonlinear_arith)
            requires
                q == u / 86400,
                u > 0,
                spec_start_of_day(t) == -u + u % 86400,
        ;
        assert((86400 * q) % 86400 == 0) by (nonlinear_arith)
            requires
                q >= 0,
        ;
    }
}

/// A higher level never means a smaller level multiplier.
pub proof fn law_level_multiplier_monotone(a: u16, b: u16)
    requires
        a <= b,
    ensures
        spec_level_multiplier(a) <= spec_level_multiplier(b),
{
    assert(spec_level_multiplier(a) <= spec_level_multiplier(b)) by (nonlinear_arith)
        requires
            a <= b,
            spec_level_multiplier(a) == (if a <= 10 {
                10000
            } else if a <= 25 {
                12000 + (a - 11) * 6000 / 14
            } else if a <= 50 {
                18000 + (a - 26) * 7000 / 24
            } else if a <= 75 {
                25000 + (a - 51) * 7000 / 24
            } else if a <= 100 {
                32000 + (a - 76) * 8000 / 24
            } else if 40000 + (a - 100) * 10 <= 50000 {
                40000 + (a - 100) * 10
            } else {
                50000
            }),
            spec_level_multiplier(b) == (if b <= 10 {
                10000
            } else if b <= 25 {
                12000 + (b - 11) * 6000 / 14
            } else if b <= 50 {
                18000 + (b - 26) * 7000 / 24
            } else if b <= 75 {
                25000 + (b - 51) * 7000 / 24
            } else if b <= 100 {
                32000 + (b - 76) * 8000 / 24
            } else if 40000 + (b - 100) * 10 <= 50000 {
                40000 + (b - 100) * 10
            } else {
                50000
            }),
    ;
}

/// A bigger or faster-growing network never earns a smaller growth bonus: the bonus is
/// `growth_rate` hundredths per member until it reaches `max_bonus`, and never exceeds it.
pub proof fn law_growth_bonus_monotone(n1: u32, n2: u32, r1: u16, r2: u16, max_bonus: u16)
    requires
        n1 <= n2,
        r1 <= r2,
    ensures
        spec_network_growth_bonus(n1, r1, max_bonus) <= spec_network_growth_bonus(n2, r2, max_bonus) <= max_bonus,
        n1 * r1 / 100 <= max_bonus ==> spec_network_growth_bonus(n1, r1, max_bonus) == n1 * r1 / 100,
{
    assert(n1 * r1 / 100 <= n2 * r2 / 100) by (nonlinear_arith)
        requires
            0 <= n1 <= n2,
            0 <= r1 <= r2,
    ;
}

/// The mining multiplier is the product of its five factors (in basis points): all at 1.0x
/// give 1.0x (10 000), and raising any factor never lowers the product.
pub proof fn law_mining_multiplier_product(a: u16, b: u16, c: u16, d: u16, e: u16, a2: u16)
    requires
        a <= a2,
    ensures
        spec_mining_multiplier(10000, 10000, 10000, 10000, 10000) == 10000,
        spec_mining_multiplier(a, b, c, d, e) <= spec_mining_multiplier(a2, b, c, d, e),
        spec_mining_multiplier(a, b, c, d, e) == spec_mining_multiplier(b, a, c, d, e),
        spec_mining_multiplier(a, b, c, d, e) == spec_mining_multiplier(e, b, c, d, a),
{
    assert(a * b * c * d * e <= a2 * b * c * d * e) by (nonlinear_arith)
        requires
            0 <= a <= a2,
            b >= 0,
            c >= 0,
            d >= 0,
            e >= 0,
    ;
    assert(a * b * c * d * e == b * a * c * d * e && a * b * c * d * e == e * b * c * d * a) by (nonlinear_arith);
    assert(a * b * c * d * e / 10000000000000000 <= a2 * b * c * d * e / 10000000000000000) by (nonlinear_arith)
        requires
            a * b * c * d * e <= a2 * b * c * d * e,
    ;
}

/// Anti-whale regression of rewards: with no FIN held a holder keeps all (10 000 basis
/// points), more holdings never keep more, and the share kept never falls below 1 basis point.
pub proof fn law_regression_factor_monotone(h1: u64, h2: u64, rate: u16)
    requires
        h1 <= h2,
    ensures
        spec_regression_factor(0, rate) == 10000,
        1 <= spec_regression_factor(h2, rate) <= spec_regression_factor(h1, rate) <= 10000,
{
    let f1 = h1 / 1_000_000_000;
    let f2 = h2 / 1_000_000_000;
    assert(f1 <= f2) by (nonlinear_arith)
        requires
            h1 <= h2,
            f1 == h1 / 1_000_000_000,
            f2 == h2 / 1_000_000_000,
    ;
    assert(f1 * rate <= f2 * rate) by (nonlinear_arith)
        requires
            0 <= f1 <= f2,
            rate >= 0,
    ;
    assert(saturating_product(f1 as u64, rate as u64) <= saturating_product(f2 as u64, rate as u64));
    assert(saturating_product(f1 as u64, rate as u64) / 10000 <= saturating_product(f2 as u64, rate as u64) / 10000) by (nonlinear_arith)
        requires
            saturating_product(f1 as u64, rate as u64) <= saturating_product(f2 as u64, rate as u64),
    ;
    assert(0 * rate == 0);
}

/// Engagement makes content more viral: at a fixed number of views, more likes, shares or
/// comments never lower the virality multiplier; a share weighs as much as three likes and a
/// comment as much as two; the multiplier ranges from 1.0x (no views, or at most 100
/// engagements per thousand views) to 3.0x (above 2 000 per thousand views).
pub proof fn law_engagement_raises_virality(views: u64, l1: u32, l2: u32, s1: u32, s2: u32, c1: u32, c2: u32)
    requires
        l1 <= l2,
        s1 <= s2,
        c1 <= c2,
    ensures
        spec_virality_multiplier(views, l1, s1, c1) <= spec_virality_multiplier(views, l2, s2, c2),
        forall|l: u32, s: u32| l + 3 <= u32::MAX && s < u32::MAX ==> #[trigger] spec_virality_multiplier(views, (l + 3) as u32, s, c1)
            == spec_virality_multiplier(views, l, (s + 1) as u32, c1),
        forall|l: u32, c: u32| l + 2 <= u32::MAX && c < u32::MAX ==> #[trigger] spec_virality_multiplier(views, (l + 2) as u32, s1, c)
            == spec_virality_multiplier(views, l, s1, (c + 1) as u32),
        spec_virality_multiplier(0, l2, s2, c2) == 10000,
        10000 <= spec_virality_multiplier(views, l1, s1, c1) <= 30000,
        views > 0 && (l1 + s1 * 3 + c1 * 2) * 1000 / (views as int) > 2000 ==> spec_virality_multiplier(views, l1, s1, c1) == 30000,
{
    let e1 = l1 + s1 * 3 + c1 * 2;
    let e2 = l2 + s2 * 3 + c2 * 2;
    if views > 0 {
        assert(e1 * 1000 / (views as int) <= e2 * 1000 / (views as int)) by (nonlinear_arith)
            requires
                0 <= e1 <= e2,
                views > 0,
        ;
    }
}

} // verus!
