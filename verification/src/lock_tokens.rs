//! Locking tokens for a transfer to another chain: request checks, daily limits, fees,
//! statistics and the lock record; the token transfer itself is left to the caller.
use vstd::prelude::*;

use crate::errors::BridgeError;
use crate::locked_tokens::LockStatus;
use crate::merkle::bytes32_eq;

verus! {

/// Longest destination chain name.
pub const MAX_CHAIN_NAME_LENGTH: usize = 32;
/// Longest recipient address.
pub const MAX_RECIPIENT_LENGTH: usize = 128;
/// Seconds in a day.
pub const SECONDS_PER_DAY: i64 = 86400;
/// Chain fee multiplier used when a chain has none, in thousandths.
pub const DEFAULT_CHAIN_FEE_MULTIPLIER: u64 = 1000;
/// Denominator of fee multipliers and discounts.
pub const FEE_PRECISION: u64 = 1000;
/// Fee paid by verified users, in thousandths of the normal fee.
pub const VERIFIED_USER_FEE_DISCOUNT: u64 = 800;
/// Fewest confirmations a high-value lock needs.
pub const HIGH_VALUE_MIN_CONFIRMATIONS: u8 = 10;
/// Denominator of fee rates (basis points).
pub const BASIS_POINTS: u64 = 10000;

/// Bridge settings and running totals read and kept by lock requests.
#[derive(Clone, Debug)]
pub struct BridgeConfig {
    pub is_active: bool,
    pub emergency_pause: bool,
    pub advanced_security_enabled: bool,
    pub supported_mint: [u8; 32],
    pub min_bridge_amount: u64,
    pub max_bridge_amount: u64,
    pub supported_chains: Vec<String>,
    pub daily_limit_reset_time: i64,
    pub daily_volume_locked: u64,
    pub daily_limit: u64,
    pub base_fee_rate: u64,
    pub min_fee: u64,
    pub max_fee: u64,
    pub chain_fee_multipliers: Vec<(String, u64)>,
    pub total_locked: u64,
    pub total_fees_collected: u64,
    pub total_transactions: u64,
    pub required_confirmations: u8,
    pub authorized_validators: Vec<[u8; 32]>,
    pub high_value_threshold: u64,
    pub high_value_whitelist: Vec<[u8; 32]>,
    pub user_last_transaction: Vec<([u8; 32], i64)>,
    pub min_transaction_interval: i64,
    pub verified_users: Vec<[u8; 32]>,
    pub emergency_unlock_code: String,
    pub emergency_mode_enabled: bool,
}

/// A validator's signature attached to a lock.
#[derive(Clone, Debug)]
pub struct LockSignature {
    pub validator: [u8; 32],
    pub signature: Vec<u8>,
    pub timestamp: i64,
}

/// The record of one lock.
#[derive(Clone, Debug)]
pub struct LockRecord {
    pub user: [u8; 32],
    pub amount: u64,
    pub fee: u64,
    pub destination_chain: String,
    pub recipient: String,
    pub lock_timestamp: i64,
    pub unlock_timestamp: i64,
    pub status: LockStatus,
    pub transaction_id: u64,
    pub validator_signatures: Vec<LockSignature>,
    pub required_confirmations: u8,
    pub current_confirmations: u8,
    pub merkle_root: [u8; 32],
    pub merkle_proof: Vec<[u8; 32]>,
    pub bump: u8,
}

/// What a lock request works on: the bridge, the user, the user's token balance, the
/// validator countersigning (for advanced locks) and the lock record being written.
#[derive(Clone, Debug)]
pub struct LockTokens {
    pub bridge_config: BridgeConfig,
    pub user: [u8; 32],
    pub user_token_balance: u64,
    pub validator: [u8; 32],
    pub locked_tokens: LockRecord,
}

/// The start of the day (UTC, in Unix seconds) that `now` falls in, rounding towards zero.
pub open spec fn day_start(now: i64) -> int {
    now - (if now >= 0 { now as int % 86400 } else { -((-now) % 86400) })
}

/// The names of the supported chains.
pub open spec fn chain_names(chains: Seq<String>) -> Seq<Seq<char>> {
    chains.map_values(|c: String| c@)
}

/// The fee multiplier of a chain: that of its first entry, or the default.
pub open spec fn chain_multiplier(multipliers: Seq<(String, u64)>, chain: Seq<char>) -> u64
    decreases multipliers.len(),
{
    if multipliers.len() == 0 {
        DEFAULT_CHAIN_FEE_MULTIPLIER
    } else if multipliers[0].0@ == chain {
        multipliers[0].1
    } else {
        chain_multiplier(multipliers.drop_first(), chain)
    }
}

/// The fee on `amount` at `rate` basis points, raised to `min_fee` and then capped at
/// `max_fee`; `None` when the product overflows.
pub open spec fn clamped_fee(amount: u64, rate: u64, min_fee: u64, max_fee: u64) -> Option<u64> {
    if amount * rate > u64::MAX {
        None
    } else {
        let fee = amount * rate / 10000;
        let raised = if fee > min_fee { fee } else { min_fee as int };
        Some(if raised < max_fee { raised as u64 } else { max_fee })
    }
}

/// The base fee times the chain multiplier, in thousandths; `None` on overflow.
pub open spec fn lock_fee(config: BridgeConfig, amount: u64, chain: Seq<char>) -> Option<u64> {
    match clamped_fee(amount, config.base_fee_rate, config.min_fee, config.max_fee) {
        None => None,
        Some(base) => {
            let m = chain_multiplier(config.chain_fee_multipliers@, chain);
            if base * m > u64::MAX { None } else { Some((base * m / 1000) as u64) }
        },
    }
}

/// The last recorded transaction time of `user`: that of its first entry.
pub open spec fn last_transaction(entries: Seq<([u8; 32], i64)>, user: [u8; 32]) -> Option<i64>
    decreases entries.len(),
{
    if entries.len() == 0 {
        None
    } else if entries[0].0 == user {
        Some(entries[0].1)
    } else {
        last_transaction(entries.drop_first(), user)
    }
}

/// The checks of a lock request before the daily limit: amount, balance, destination chain and
/// recipient.
pub open spec fn lock_checks(s: LockTokens, amount: u64, dest: &str, recipient: &str) -> Result<(), BridgeError> {
    let c = s.bridge_config;
    if amount == 0 {
        Err(BridgeError::InvalidAmount)
    } else if amount < c.min_bridge_amount {
        Err(BridgeError::AmountTooSmall)
    } else if amount > c.max_bridge_amount {
        Err(BridgeError::AmountTooLarge)
    } else if s.user_token_balance < amount {
        Err(BridgeError::InsufficientBalance)
    } else if dest@.len() == 0 || dest.len() > MAX_CHAIN_NAME_LENGTH {
        Err(BridgeError::InvalidDestinationChain)
    } else if !chain_names(c.supported_chains@).contains(dest@) {
        Err(BridgeError::UnsupportedDestinationChain)
    } else if recipient@.len() == 0 || recipient.len() > MAX_RECIPIENT_LENGTH {
        Err(BridgeError::InvalidRecipient)
    } else {
        Ok(())
    }
}

/// Two configurations agree except for the daily count and its restart time.
pub open spec fn same_but_daily(a: BridgeConfig, b: BridgeConfig) -> bool {
    &&& a.is_active == b.is_active
    &&& a.emergency_pause == b.emergency_pause
    &&& a.advanced_security_enabled == b.advanced_security_enabled
    &&& a.supported_mint == b.supported_mint
    &&& a.min_bridge_amount == b.min_bridge_amount
    &&& a.max_bridge_amount == b.max_bridge_amount
    &&& a.supported_chains@ == b.supported_chains@
    &&& a.daily_limit == b.daily_limit
    &&& a.base_fee_rate == b.base_fee_rate
    &&& a.min_fee == b.min_fee
    &&& a.max_fee == b.max_fee
    &&& a.chain_fee_multipliers@ == b.chain_fee_multipliers@
    &&& a.total_locked == b.total_locked
    &&& a.total_fees_collected == b.total_fees_collected
    &&& a.total_transactions == b.total_transactions
    &&& a.required_confirmations == b.required_confirmations
    &&& a.authorized_validators@ == b.authorized_validators@
    &&& a.high_value_threshold == b.high_value_threshold
    &&& a.high_value_whitelist@ == b.high_value_whitelist@
    &&& a.user_last_transaction@ == b.user_last_transaction@
    &&& a.min_transaction_interval == b.min_transaction_interval
    &&& a.verified_users@ == b.verified_users@
    &&& a.emergency_unlock_code == b.emergency_unlock_code
    &&& a.emergency_mode_enabled == b.emergency_mode_enabled
}

/// The checks of an advanced lock beyond the basic ones: high-value locks need enough
/// confirmations and a whitelisted user, and a user must wait between transactions.
pub open spec fn security_checks(s: LockTokens, amount: u64, now: i64) -> Result<(), BridgeError> {
    let c = s.bridge_config;
    if amount >= c.high_value_threshold && c.required_confirmations < HIGH_VALUE_MIN_CONFIRMATIONS {
        Err(BridgeError::InsufficientConfirmationsRequired)
    } else if amount >= c.high_value_threshold && !c.high_value_whitelist@.contains(s.user) {
        Err(BridgeError::HighValueNotWhitelisted)
    } else {
        match last_transaction(c.user_last_transaction@, s.user) {
            Some(t) => if now - t < c.min_transaction_interval {
                Err(BridgeError::TransactionTooFrequent)
            } else {
                Ok(())
            },
            None => Ok(()),
        }
    }
}

/// The countersigning validator must be authorized and its signature valid.
pub open spec fn validator_authorization(s: LockTokens, signature_valid: bool) -> Result<(), BridgeError> {
    if !s.bridge_config.authorized_validators@.contains(s.validator) {
        Err(BridgeError::UnauthorizedValidator)
    } else if !signature_valid {
        Err(BridgeError::InvalidSignature)
    } else {
        Ok(())
    }
}

/// Whether the daily count restarts at time `now`.
pub open spec fn daily_reset_due(c: BridgeConfig, now: i64) -> bool {
    c.daily_limit_reset_time < day_start(now)
}

/// The day's locked volume at time `now`, after a restart if one is due.
pub open spec fn volume_after_reset(c: BridgeConfig, now: i64) -> u64 {
    if daily_reset_due(c, now) { 0 } else { c.daily_volume_locked }
}

/// The time of the last restart of the daily count, at time `now`.
pub open spec fn reset_time_after(c: BridgeConfig, now: i64) -> i64 {
    if daily_reset_due(c, now) { day_start(now) as i64 } else { c.daily_limit_reset_time }
}

/// The fee on `amount` at `rate` basis points, at least `min_fee` and at most `max_fee`.
pub fn calculate_fee(amount: u64, rate: u64, min_fee: u64, max_fee: u64) -> (res: Result<u64, BridgeError>)
    ensures
        res == (match clamped_fee(amount, rate, min_fee, max_fee) {
            Some(f) => Ok::<u64, BridgeError>(f),
            None => Err(BridgeError::MathOverflow),
        }),
{
    let product = match amount.checked_mul(rate) {
        Some(p) => p,
        None => { return Err(BridgeError::MathOverflow); },
    };
    let fee = product / BASIS_POINTS;
    let raised = if fee > min_fee { fee } else { min_fee };
    Ok(if raised < max_fee { raised } else { max_fee })
}

/// Whether two strings are equal.
fn same_text(a: &String, b: &str) -> (r: bool)
    ensures
        r == (a@ == b@),
{
    let owned = String::from_str(b);
    *a == owned
}

/// Whether `key` is in `keys`.
fn key_listed(keys: &Vec<[u8; 32]>, key: &[u8; 32]) -> (r: bool)
    ensures
        r == keys@.contains(*key),
{
    let mut i: usize = 0;
    while i < keys.len()
        invariant
            i <= keys@.len(),
            forall|j: int| 0 <= j < i ==> keys@[j] != *key,
        decreases keys.len() - i,
    {
        if bytes32_eq(&keys[i], key) {
            assert(keys@[i as int] == *key);
            return true;
        }
        i = i + 1;
    }
    false
}

impl LockTokens {
    /// Checks a lock request at time `now`: the amount within the bridge's limits and the
    /// user's balance, a supported destination chain, a recipient, and room under the daily
    /// limit (whose count restarts each day).
    pub fn validate_lock_request(&mut self, amount: u64, destination_chain: &str, recipient: &str, now: i64) -> (res: Result<
        (),
        BridgeError,
    >)
        requires
            lock_checks(*old(self), amount, destination_chain, recipient) is Ok && !daily_reset_due(old(self).bridge_config, now)
                ==> old(self).bridge_config.daily_volume_locked + amount <= u64::MAX,
        ensures
            lock_checks(*old(self), amount, destination_chain, recipient) is Err ==> res == lock_checks(*old(self), amount, destination_chain, recipient) && *final(self) == *old(self),
            lock_checks(*old(self), amount, destination_chain, recipient) is Ok ==> {
                let c = old(self).bridge_config;
                &&& final(self).bridge_config.daily_volume_locked == volume_after_reset(c, now)
                &&& final(self).bridge_config.daily_limit_reset_time == reset_time_after(c, now)
                &&& res == (if volume_after_reset(c, now) + amount > c.daily_limit {
                    Err::<(), BridgeError>(BridgeError::DailyLimitExceeded)
                } else {
                    Ok(())
                })
            },
            final(self).locked_tokens == old(self).locked_tokens,
            same_but_daily(final(self).bridge_config, old(self).bridge_config),
            final(self).validator == old(self).validator,
            final(self).user == old(self).user,
            final(self).user_token_balance == old(self).user_token_balance,
            final(self).bridge_config.total_locked == old(self).bridge_config.total_locked,
            final(self).bridge_config.total_fees_collected == old(self).bridge_config.total_fees_collected,
            final(self).bridge_config.total_transactions == old(self).bridge_config.total_transactions,
    {
        if amount == 0 {
            return Err(BridgeError::InvalidAmount);
        }
        if amount < self.bridge_config.min_bridge_amount {
            return Err(BridgeError::AmountTooSmall);
        }
        if amount > self.bridge_config.max_bridge_amount {
            return Err(BridgeError::AmountTooLarge);
        }
        if self.user_token_balance < amount {
            return Err(BridgeError::InsufficientBalance);
        }
        if destination_chain.is_empty() || destination_chain.len() > MAX_CHAIN_NAME_LENGTH {
            return Err(BridgeError::InvalidDestinationChain);
        }
        let mut supported = false;
        let mut i: usize = 0;
        while i < self.bridge_config.supported_chains.len()
            invariant
                i <= self.bridge_config.supported_chains@.len(),
                supported == exists|j: int| 0 <= j < i && self.bridge_config.supported_chains@[j]@ == destination_chain@,
            decreases self.bridge_config.supported_chains.len() - i,
        {
            if same_text(&self.bridge_config.supported_chains[i], destination_chain) {
                supported = true;
            }
            i = i + 1;
        }
        proof {
            let names = chain_names(self.bridge_config.supported_chains@);
            if supported {
                let j = choose|j: int| 0 <= j < self.bridge_config.supported_chains@.len() && self.bridge_config.supported_chains@[j]@ == destination_chain@;
                assert(names[j] == destination_chain@);
                assert(names.contains(destination_chain@));
            } else {
                assert forall|j: int| 0 <= j < names.len() implies names[j] != destination_chain@ by {
                    assert(names[j] == self.bridge_config.supported_chains@[j]@);
                }
            }
        }
        if !supported {
            return Err(BridgeError::UnsupportedDestinationChain);
        }
        if recipient.is_empty() || recipient.len() > MAX_RECIPIENT_LENGTH {
            return Err(BridgeError::InvalidRecipient);
        }
        let daily_reset_time = now - (now % SECONDS_PER_DAY);
        if self.bridge_config.daily_limit_reset_time < daily_reset_time {
            self.bridge_config.daily_volume_locked = 0;
            self.bridge_config.daily_limit_reset_time = daily_reset_time;
        }
        if self.bridge_config.daily_volume_locked + amount > self.bridge_config.daily_limit {
            return Err(BridgeError::DailyLimitExceeded);
        }
        Ok(())
    }

    /// The fee of a lock: the bridge's clamped base fee times the destination chain's
    /// multiplier, in thousandths.
    pub fn calculate_bridge_fee(&self, amount: u64, destination_chain: &str) -> (res: Result<u64, BridgeError>)
        ensures
            res == (match lock_fee(self.bridge_config, amount, destination_chain@) {
                Some(f) => Ok::<u64, BridgeError>(f),
                None => Err(BridgeError::MathOverflow),
            }),
    {
        let base_fee = match calculate_fee(amount, self.bridge_config.base_fee_rate, self.bridge_config.min_fee, self.bridge_config.max_fee) {
            Ok(f) => f,
            Err(e) => { return Err(e); },
        };
        let mut chain_multiplier_value = DEFAULT_CHAIN_FEE_MULTIPLIER;
        let mut i: usize = 0;
        let ghost entries = self.bridge_config.chain_fee_multipliers@;
        assert(entries.skip(0) =~= entries);
        let mut found = false;
        while i < self.bridge_config.chain_fee_multipliers.len() && !found
            invariant
                i <= entries.len(),
                entries == self.bridge_config.chain_fee_multipliers@,
                found ==> chain_multiplier_value == chain_multiplier(entries, destination_chain@),
                !found ==> chain_multiplier_value == DEFAULT_CHAIN_FEE_MULTIPLIER,
                !found ==> chain_multiplier(entries, destination_chain@) == chain_multiplier(entries.skip(i as int), destination_chain@),
            decreases entries.len() - i,
        {
            assert(entries.skip(i as int)[0] == entries[i as int]);
            assert(entries.skip(i as int).drop_first() =~= entries.skip(i + 1));
            if same_text(&self.bridge_config.chain_fee_multipliers[i].0, destination_chain) {
                chain_multiplier_value = self.bridge_config.chain_fee_multipliers[i].1;
                found = true;
            }
            i = i + 1;
        }
        if !found {
            assert(entries.skip(entries.len() as int).len() == 0);
        }
        let product = match base_fee.checked_mul(chain_multiplier_value) {
            Some(p) => p,
            None => { return Err(BridgeError::MathOverflow); },
        };
        Ok(product / FEE_PRECISION)
    }

    /// Adds a lock of `amount` with fee `fee` to the bridge's totals; a total that would
    /// overflow is an error (with the totals before it already updated).
    pub fn update_bridge_stats(&mut self, amount: u64, fee: u64) -> (res: Result<(), BridgeError>)
        ensures
            ({
                let c = old(self).bridge_config;
                if c.total_locked + amount > u64::MAX {
                    res == Err::<(), BridgeError>(BridgeError::MathOverflow) && *final(self) == *old(self)
                } else if c.daily_volume_locked + amount > u64::MAX {
                    res == Err::<(), BridgeError>(BridgeError::MathOverflow)
                        && final(self).bridge_config.total_locked == c.total_locked + amount
                } else if c.total_fees_collected + fee > u64::MAX {
                    res == Err::<(), BridgeError>(BridgeError::MathOverflow)
                } else if c.total_transactions + 1 > u64::MAX {
                    res == Err::<(), BridgeError>(BridgeError::MathOverflow)
                } else {
                    &&& res is Ok
                    &&& final(self).bridge_config.total_locked == c.total_locked + amount
                    &&& final(self).bridge_config.daily_volume_locked == c.daily_volume_locked + amount
                    &&& final(self).bridge_config.total_fees_collected == c.total_fees_collected + fee
                    &&& final(self).bridge_config.total_transactions == c.total_transactions + 1
                }
            }),
            final(self).user == old(self).user,
            final(self).user_token_balance == old(self).user_token_balance,
            final(self).validator == old(self).validator,
            final(self).locked_tokens == old(self).locked_tokens,
            final(self).bridge_config.daily_limit_reset_time == old(self).bridge_config.daily_limit_reset_time,
            final(self).bridge_config.required_confirmations == old(self).bridge_config.required_confirmations,
            final(self).bridge_config.user_last_transaction@ == old(self).bridge_config.user_last_transaction@,
    {
        self.bridge_config.total_locked = match self.bridge_config.total_locked.checked_add(amount) {
            Some(v) => v,
            None => { return Err(BridgeError::MathOverflow); },
        };
        self.bridge_config.daily_volume_locked = match self.bridge_config.daily_volume_locked.checked_add(amount) {
            Some(v) => v,
            None => { return Err(BridgeError::MathOverflow); },
        };
        self.bridge_config.total_fees_collected = match self.bridge_config.total_fees_collected.checked_add(fee) {
            Some(v) => v,
            None => { return Err(BridgeError::MathOverflow); },
        };
        self.bridge_config.total_transactions = match self.bridge_config.total_transactions.checked_add(1) {
            Some(v) => v,
            None => { return Err(BridgeError::MathOverflow); },
        };
        Ok(())
    }

    /// Writes the lock record of a new lock made at time `now` with id `unique_id`.
    pub fn initialize_locked_tokens(
        &mut self,
        amount: u64,
        fee: u64,
        destination_chain: String,
        recipient: String,
        bump: u8,
        now: i64,
        unique_id: u64,
    ) -> (res: Result<(), BridgeError>)
        ensures
            res is Ok,
            final(self).locked_tokens.user == old(self).user,
            final(self).locked_tokens.amount == amount,
            final(self).locked_tokens.fee == fee,
            final(self).locked_tokens.destination_chain@ == destination_chain@,
            final(self).locked_tokens.recipient@ == recipient@,
            final(self).locked_tokens.lock_timestamp == now,
            final(self).locked_tokens.unlock_timestamp == 0,
            final(self).locked_tokens.status == LockStatus::Locked,
            final(self).locked_tokens.transaction_id == unique_id,
            final(self).locked_tokens.validator_signatures@.len() == 0,
            final(self).locked_tokens.required_confirmations == old(self).bridge_config.required_confirmations,
            final(self).locked_tokens.current_confirmations == 0,
            final(self).locked_tokens.merkle_root@ == Seq::new(32, |i: int| 0u8),
            final(self).locked_tokens.merkle_proof@.len() == 0,
            final(self).locked_tokens.bump == bump,
            final(self).user == old(self).user,
            final(self).user_token_balance == old(self).user_token_balance,
            final(self).bridge_config.total_locked == old(self).bridge_config.total_locked,
            final(self).bridge_config.daily_volume_locked == old(self).bridge_config.daily_volume_locked,
            final(self).bridge_config.total_fees_collected == old(self).bridge_config.total_fees_collected,
            final(self).bridge_config.total_transactions == old(self).bridge_config.total_transactions,
            final(self).bridge_config.user_last_transaction@ == old(self).bridge_config.user_last_transaction@,
            final(self).bridge_config.daily_limit_reset_time == old(self).bridge_config.daily_limit_reset_time,
            same_but_daily(final(self).bridge_config, old(self).bridge_config),
            final(self).validator == old(self).validator,
    {
        self.locked_tokens = LockRecord {
            user: self.user,
            amount,
            fee,
            destination_chain,
            recipient,
            lock_timestamp: now,
            unlock_timestamp: 0,
            status: LockStatus::Locked,
            transaction_id: unique_id,
            validator_signatures: Vec::new(),
            required_confirmations: self.bridge_config.required_confirmations,
            current_confirmations: 0,
            merkle_root: [0u8; 32],
            merkle_proof: Vec::new(),
            bump,
        };
        assert(self.locked_tokens.merkle_root@ =~= Seq::new(32, |i: int| 0u8));
        Ok(())
    }

    /// Checks that the countersigning validator is authorized and that its signature over the
    /// lock message, checked by the caller, is valid.
    pub fn validate_validator_signature(&self, signature_valid: bool) -> (res: Result<(), BridgeError>)
        ensures
            res == validator_authorization(*self, signature_valid),
    {
        if !key_listed(&self.bridge_config.authorized_validators, &self.validator) {
            return Err(BridgeError::UnauthorizedValidator);
        }
        if !signature_valid {
            return Err(BridgeError::InvalidSignature);
        }
        Ok(())
    }

    /// Extra checks of an advanced lock at time `now`: a high-value lock needs enough
    /// confirmations and a whitelisted user, and a user must wait the minimum interval between
    /// transactions.
    pub fn enhanced_security_checks(&self, amount: u64, now: i64) -> (res: Result<(), BridgeError>)
        requires
            last_transaction(self.bridge_config.user_last_transaction@, self.user) matches Some(t)
                ==> i64::MIN <= now - t <= i64::MAX,
        ensures
            res == security_checks(*self, amount, now),
    {
        if amount >= self.bridge_config.high_value_threshold {
            if self.bridge_config.required_confirmations < HIGH_VALUE_MIN_CONFIRMATIONS {
                return Err(BridgeError::InsufficientConfirmationsRequired);
            }
            if !key_listed(&self.bridge_config.high_value_whitelist, &self.user) {
                return Err(BridgeError::HighValueNotWhitelisted);
            }
        }
        let ghost entries = self.bridge_config.user_last_transaction@;
        let mut i: usize = 0;
        assert(entries.skip(0) =~= entries);
        while i < self.bridge_config.user_last_transaction.len()
            invariant
                i <= entries.len(),
                entries == self.bridge_config.user_last_transaction@,
                last_transaction(entries, self.user) == last_transaction(entries.skip(i as int), self.user),
                last_transaction(entries, self.user) matches Some(t) ==> i64::MIN <= now - t <= i64::MAX,
                !(amount >= self.bridge_config.high_value_threshold
                    && self.bridge_config.required_confirmations < HIGH_VALUE_MIN_CONFIRMATIONS),
                !(amount >= self.bridge_config.high_value_threshold && !self.bridge_config.high_value_whitelist@.contains(self.user)),
            decreases entries.len() - i,
        {
            assert(entries.skip(i as int)[0] == entries[i as int]);
            assert(entries.skip(i as int).drop_first() =~= entries.skip(i + 1));
            let entry = self.bridge_config.user_last_transaction[i];
            if bytes32_eq(&entry.0, &self.user) {
                let time_diff = now - entry.1;
                if time_diff < self.bridge_config.min_transaction_interval {
                    return Err(BridgeError::TransactionTooFrequent);
                }
                return Ok(());
            }
            i = i + 1;
        }
        assert(entries.skip(entries.len() as int).len() == 0);
        Ok(())
    }
}

/// What a lock request gives: the fee, or the first check that fails.
pub open spec fn lock_outcome(s: LockTokens, amount: u64, dest: &str, recipient: &str, now: i64) -> Result<u64, BridgeError> {
    let c = s.bridge_config;
    let volume = volume_after_reset(c, now);
    match lock_checks(s, amount, dest, recipient) {
        Err(e) => Err(e),
        Ok(_) => if volume + amount > c.daily_limit {
            Err(BridgeError::DailyLimitExceeded)
        } else {
            match lock_fee(c, amount, dest@) {
                None => Err(BridgeError::MathOverflow),
                Some(fee) => if amount + fee > u64::MAX {
                    Err(BridgeError::MathOverflow)
                } else if s.user_token_balance < amount + fee {
                    Err(BridgeError::InsufficientBalance)
                } else if c.total_locked + amount > u64::MAX || volume + amount > u64::MAX
                    || c.total_fees_collected + fee > u64::MAX || c.total_transactions + 1 > u64::MAX {
                    Err(BridgeError::MathOverflow)
                } else {
                    Ok(fee)
                },
            }
        },
    }
}

/// The lock record and bridge totals after a lock of `amount` with fee `fee`, at time `now`.
pub open spec fn locked_as(old: LockTokens, new: LockTokens, amount: u64, fee: u64, dest: Seq<char>, recipient: Seq<char>, now: i64, unique_id: u64, bump: u8) -> bool {
    let c = old.bridge_config;
    &&& new.bridge_config.total_locked == c.total_locked + amount
    &&& new.bridge_config.daily_volume_locked == volume_after_reset(c, now) + amount
    &&& new.bridge_config.daily_limit_reset_time == reset_time_after(c, now)
    &&& new.bridge_config.total_fees_collected == c.total_fees_collected + fee
    &&& new.bridge_config.total_transactions == c.total_transactions + 1
    &&& new.locked_tokens.user == old.user
    &&& new.locked_tokens.amount == amount
    &&& new.locked_tokens.fee == fee
    &&& new.locked_tokens.destination_chain@ == dest
    &&& new.locked_tokens.recipient@ == recipient
    &&& new.locked_tokens.lock_timestamp == now
    &&& new.locked_tokens.unlock_timestamp == 0
    &&& new.locked_tokens.transaction_id == unique_id
    &&& new.locked_tokens.required_confirmations == c.required_confirmations
    &&& new.locked_tokens.current_confirmations == 0
    &&& new.locked_tokens.merkle_proof@.len() == 0
    &&& new.locked_tokens.bump == bump
    &&& new.user == old.user
    &&& new.user_token_balance == old.user_token_balance
}

/// The recorded transaction times after recording `t` for `user`: its entry is replaced, or a
/// new one appended.
pub open spec fn with_transaction_time(entries: Seq<([u8; 32], i64)>, user: [u8; 32], t: i64) -> Seq<([u8; 32], i64)>
    decreases entries.len(),
{
    if entries.len() == 0 {
        seq![(user, t)]
    } else if entries[0].0 == user {
        entries.update(0, (user, t))
    } else {
        seq![entries[0]] + with_transaction_time(entries.drop_first(), user, t)
    }
}

impl LockTokens {
    /// Handles a lock request at time `now`: checks it, charges the fee, adds it to the
    /// bridge's totals and writes the lock record. Returns the amount (lock plus fee) that the
    /// caller moves from the user's account to the bridge vault.
    pub fn handler(
        &mut self,
        amount: u64,
        destination_chain: &str,
        recipient: &str,
        now: i64,
        unique_id: u64,
        bump: u8,
    ) -> (res: Result<u64, BridgeError>)
        requires
            lock_checks(*old(self), amount, destination_chain, recipient) is Ok
                && !daily_reset_due(old(self).bridge_config, now) ==> old(self).bridge_config.daily_volume_locked + amount <= u64::MAX,
        ensures
            match lock_outcome(*old(self), amount, destination_chain, recipient, now) {
                Err(e) => res == Err::<u64, BridgeError>(e),
                Ok(fee) => res == Ok::<u64, BridgeError>((amount + fee) as u64) && final(self).locked_tokens.status
                    == LockStatus::Locked && locked_as(*old(self), *final(self), amount, fee, destination_chain@, recipient@, now,
                    unique_id, bump),
            },
    {
        let ghost start = *self;
        match self.validate_lock_request(amount, destination_chain, recipient, now) {
            Ok(()) => {},
            Err(e) => { return Err(e); },
        }
        let fee = match self.calculate_bridge_fee(amount, destination_chain) {
            Ok(f) => f,
            Err(e) => { return Err(e); },
        };
        assert(lock_fee(self.bridge_config, amount, destination_chain@) == lock_fee(start.bridge_config, amount, destination_chain@));
        let total_amount = match amount.checked_add(fee) {
            Some(t) => t,
            None => { return Err(BridgeError::MathOverflow); },
        };
        if self.user_token_balance < total_amount {
            return Err(BridgeError::InsufficientBalance);
        }
        match self.update_bridge_stats(amount, fee) {
            Ok(()) => {},
            Err(e) => { return Err(e); },
        }
        match self.initialize_locked_tokens(amount, fee, String::from_str(destination_chain), String::from_str(recipient), bump, now, unique_id) {
            Ok(()) => {},
            Err(e) => { return Err(e); },
        }
        Ok(total_amount)
    }
}

/// What an advanced lock request gives: the fee (discounted for verified users), or the first
/// check that fails.
pub open spec fn advanced_lock_outcome(s: LockTokens, amount: u64, dest: &str, recipient: &str, signature_valid: bool, now: i64) -> Result<u64, BridgeError> {
    let c = s.bridge_config;
    let volume = volume_after_reset(c, now);
    match lock_checks(s, amount, dest, recipient) {
        Err(e) => Err(e),
        Ok(_) => if volume + amount > c.daily_limit {
            Err(BridgeError::DailyLimitExceeded)
        } else {
            match validator_authorization(s, signature_valid) {
                Err(e) => Err(e),
                Ok(_) => match security_checks(s, amount, now) {
                    Err(e) => Err(e),
                    Ok(_) => match lock_fee(c, amount, dest@) {
                        None => Err(BridgeError::MathOverflow),
                        Some(base) => {
                            let verified = c.verified_users@.contains(s.user);
                            if verified && base * VERIFIED_USER_FEE_DISCOUNT > u64::MAX {
                                Err(BridgeError::MathOverflow)
                            } else {
                                let fee = if verified { (base * VERIFIED_USER_FEE_DISCOUNT / (FEE_PRECISION as int)) as u64 } else { base };
                                if amount + fee > u64::MAX {
                                    Err(BridgeError::MathOverflow)
                                } else if c.total_locked + amount > u64::MAX || volume + amount > u64::MAX
                                    || c.total_fees_collected + fee > u64::MAX || c.total_transactions + 1 > u64::MAX {
                                    Err(BridgeError::MathOverflow)
                                } else {
                                    Ok(fee)
                                }
                            }
                        },
                    },
                },
            }
        },
    }
}

/// Recording a time replaces the first entry of the user, or appends one.
pub proof fn lemma_with_transaction_time(entries: Seq<([u8; 32], i64)>, user: [u8; 32], t: i64, k: int)
    requires
        0 <= k <= entries.len(),
        forall|j: int| 0 <= j < k ==> entries[j].0 != user,
        k < entries.len() ==> entries[k].0 == user,
    ensures
        with_transaction_time(entries, user, t) == (if k < entries.len() {
            entries.update(k, (user, t))
        } else {
            entries.push((user, t))
        }),
    decreases entries.len(),
{
    if entries.len() > 0 && entries[0].0 != user {
        lemma_with_transaction_time(entries.drop_first(), user, t, k - 1);
        if k < entries.len() {
            assert(seq![entries[0]] + entries.drop_first().update(k - 1, (user, t)) =~= entries.update(k, (user, t)));
        } else {
            assert(seq![entries[0]] + entries.drop_first().push((user, t)) =~= entries.push((user, t)));
        }
    } else if entries.len() == 0 {
        assert(seq![(user, t)] =~= entries.push((user, t)));
    }
}

impl LockTokens {
    /// Records `now` as the user's last transaction time.
    pub fn record_transaction_time(&mut self, now: i64)
        ensures
            final(self).bridge_config.user_last_transaction@ == with_transaction_time(
                old(self).bridge_config.user_last_transaction@,
                old(self).user,
                now,
            ),
            final(self).user == old(self).user,
            final(self).user_token_balance == old(self).user_token_balance,
            final(self).validator == old(self).validator,
            final(self).locked_tokens == old(self).locked_tokens,
            final(self).bridge_config.total_locked == old(self).bridge_config.total_locked,
            final(self).bridge_config.daily_volume_locked == old(self).bridge_config.daily_volume_locked,
            final(self).bridge_config.daily_limit_reset_time == old(self).bridge_config.daily_limit_reset_time,
            final(self).bridge_config.total_fees_collected == old(self).bridge_config.total_fees_collected,
            final(self).bridge_config.total_transactions == old(self).bridge_config.total_transactions,
            final(self).bridge_config.required_confirmations == old(self).bridge_config.required_confirmations,
    {
        let user = self.user;
        let mut k: usize = 0;
        let mut found = false;
        while !found && k < self.bridge_config.user_last_transaction.len()
            invariant
                k <= self.bridge_config.user_last_transaction@.len(),
                forall|j: int| 0 <= j < k ==> self.bridge_config.user_last_transaction@[j].0 != user,
                found ==> k < self.bridge_config.user_last_transaction@.len() && self.bridge_config.user_last_transaction@[k as int].0 == user,
            decreases self.bridge_config.user_last_transaction@.len() - k + (if found { 0int } else { 1int }),
        {
            if bytes32_eq(&self.bridge_config.user_last_transaction[k].0, &user) {
                found = true;
            } else {
                k = k + 1;
            }
        }
        proof {
            lemma_with_transaction_time(self.bridge_config.user_last_transaction@, user, now, k as int);
        }
        if k < self.bridge_config.user_last_transaction.len() {
            self.bridge_config.user_last_transaction.set(k, (user, now));
        } else {
            self.bridge_config.user_last_transaction.push((user, now));
        }
    }

    /// Handles an advanced lock request at time `now`: the basic checks, an authorized
    /// validator's countersignature (whose validity the caller checked), the extra security
    /// checks and a discount for verified users. Records the user's transaction time and the
    /// validator's signature on the lock. Returns the amount (lock plus fee) that the caller
    /// moves to the bridge vault.
    pub fn handler_advanced(
        &mut self,
        amount: u64,
        destination_chain: &str,
        recipient: &str,
        validator_signature: Vec<u8>,
        signature_valid: bool,
        now: i64,
        unique_id: u64,
        bump: u8,
    ) -> (res: Result<u64, BridgeError>)
        requires
            lock_checks(*old(self), amount, destination_chain, recipient) is Ok
                && !daily_reset_due(old(self).bridge_config, now) ==> old(self).bridge_config.daily_volume_locked + amount <= u64::MAX,
            last_transaction(old(self).bridge_config.user_last_transaction@, old(self).user) matches Some(t)
                ==> i64::MIN <= now - t <= i64::MAX,
        ensures
            match advanced_lock_outcome(*old(self), amount, destination_chain, recipient, signature_valid, now) {
                Err(e) => res == Err::<u64, BridgeError>(e),
                Ok(fee) => {
                    &&& res == Ok::<u64, BridgeError>((amount + fee) as u64)
                    &&& final(self).locked_tokens.status == LockStatus::Locked
                    &&& locked_as(*old(self), *final(self), amount, fee, destination_chain@, recipient@, now, unique_id, bump)
                    &&& final(self).bridge_config.user_last_transaction@ == with_transaction_time(
                        old(self).bridge_config.user_last_transaction@,
                        old(self).user,
                        now,
                    )
                    &&& final(self).locked_tokens.validator_signatures@.len() == 1
                    &&& final(self).locked_tokens.validator_signatures@[0].validator == old(self).validator
                    &&& final(self).locked_tokens.validator_signatures@[0].signature@ == validator_signature@
                    &&& final(self).locked_tokens.validator_signatures@[0].timestamp == now
                },
            },
    {
        let ghost start = *self;
        match self.validate_lock_request(amount, destination_chain, recipient, now) {
            Ok(()) => {},
            Err(e) => { return Err(e); },
        }
        match self.validate_validator_signature(signature_valid) {
            Ok(()) => {},
            Err(e) => { return Err(e); },
        }
        match self.enhanced_security_checks(amount, now) {
            Ok(()) => {},
            Err(e) => { return Err(e); },
        }
        let base_fee = match self.calculate_bridge_fee(amount, destination_chain) {
            Ok(f) => f,
            Err(e) => { return Err(e); },
        };
        let fee = if key_listed(&self.bridge_config.verified_users, &self.user) {
            let product = match base_fee.checked_mul(VERIFIED_USER_FEE_DISCOUNT) {
                Some(p) => p,
                None => { return Err(BridgeError::MathOverflow); },
            };
            product / FEE_PRECISION
        } else {
            base_fee
        };
        let total_amount = match amount.checked_add(fee) {
            Some(t) => t,
            None => { return Err(BridgeError::MathOverflow); },
        };
        match self.update_bridge_stats(amount, fee) {
            Ok(()) => {},
            Err(e) => { return Err(e); },
        }
        self.record_transaction_time(now);
        match self.initialize_locked_tokens(amount, fee, String::from_str(destination_chain), String::from_str(recipient), bump, now, unique_id) {
            Ok(()) => {},
            Err(e) => { return Err(e); },
        }
        let signature = LockSignature { validator: self.validator, signature: validator_signature, timestamp: now };
        self.locked_tokens.validator_signatures.push(signature);
        Ok(total_amount)
    }

    /// Handles a lock in emergency mode, which needs the emergency code and charges no fee; the
    /// lock is marked as an emergency lock. Returns the amount that the caller moves to the
    /// bridge vault.
    pub fn emergency_lock_handler(
        &mut self,
        amount: u64,
        destination_chain: &str,
        recipient: &str,
        emergency_code: &str,
        now: i64,
        unique_id: u64,
        bump: u8,
    ) -> (res: Result<u64, BridgeError>)
        ensures
            emergency_code@ != old(self).bridge_config.emergency_unlock_code@ ==> res == Err::<u64, BridgeError>(
                BridgeError::InvalidEmergencyCode,
            ) && *final(self) == *old(self),
            emergency_code@ == old(self).bridge_config.emergency_unlock_code@ && !old(self).bridge_config.emergency_mode_enabled
                ==> res == Err::<u64, BridgeError>(BridgeError::EmergencyModeNotEnabled) && *final(self) == *old(self),
            emergency_code@ == old(self).bridge_config.emergency_unlock_code@ && old(self).bridge_config.emergency_mode_enabled ==> {
                &&& res == Ok::<u64, BridgeError>(amount)
                &&& final(self).locked_tokens.status == LockStatus::EmergencyLocked
                &&& final(self).locked_tokens.user == old(self).user
                &&& final(self).locked_tokens.amount == amount
                &&& final(self).locked_tokens.fee == 0
                &&& final(self).locked_tokens.destination_chain@ == destination_chain@
                &&& final(self).locked_tokens.recipient@ == recipient@
                &&& final(self).locked_tokens.lock_timestamp == now
                &&& final(self).locked_tokens.transaction_id == unique_id
                &&& final(self).locked_tokens.bump == bump
                &&& final(self).bridge_config.total_locked == old(self).bridge_config.total_locked
                &&& final(self).bridge_config.total_fees_collected == old(self).bridge_config.total_fees_collected
            },
    {
        if !same_text(&self.bridge_config.emergency_unlock_code, emergency_code) {
            return Err(BridgeError::InvalidEmergencyCode);
        }
        if !self.bridge_config.emergency_mode_enabled {
            return Err(BridgeError::EmergencyModeNotEnabled);
        }
        match self.initialize_locked_tokens(amount, 0, String::from_str(destination_chain), String::from_str(recipient), bump, now, unique_id) {
            Ok(()) => {},
            Err(e) => { return Err(e); },
        }
        self.locked_tokens.status = LockStatus::EmergencyLocked;
        Ok(amount)
    }
}

} // verus!
