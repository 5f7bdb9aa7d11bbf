//! Bridge-wide constants, fee and reward formulas, and default configurations.
use vstd::prelude::*;

verus! {

/// The bridge's constants.
#[derive(Clone, Copy, Debug, PartialEq, Eq, Structural)]
pub struct BridgeConstants;

impl BridgeConstants {
    /// Maximum number of validators in the validator set
    pub const MAX_VALIDATORS: usize = 21;
    /// Minimum number of validators required for consensus
    pub const MIN_VALIDATORS: usize = 7;
    /// Required threshold for validator consensus (2/3 + 1)
    pub const CONSENSUS_THRESHOLD: u8 = 67;
    /// Maximum validator stake weight (prevents centralization)
    pub const MAX_VALIDATOR_WEIGHT: u64 = 100000000;
    /// Minimum validator stake required
    pub const MIN_VALIDATOR_STAKE: u64 = 1000000;
    /// Maximum tokens that can be locked in a single transaction
    pub const MAX_LOCK_AMOUNT: u64 = 1000000000000;
    /// Minimum tokens that can be locked in a single transaction
    pub const MIN_LOCK_AMOUNT: u64 = 1000;
    /// Maximum daily bridge volume per user
    pub const MAX_DAILY_VOLUME_PER_USER: u64 = 10000000000;
    /// Maximum total daily bridge volume
    pub const MAX_DAILY_TOTAL_VOLUME: u64 = 100000000000;
    /// Maximum pending transactions per user
    pub const MAX_PENDING_TXS_PER_USER: u8 = 5;
    /// Maximum total pending transactions
    pub const MAX_TOTAL_PENDING_TXS: u16 = 1000;
    /// Standard timelock for regular transfers (in seconds)
    pub const STANDARD_TIMELOCK: i64 = 300;
    /// Extended timelock for large transfers (in seconds)
    pub const LARGE_TRANSFER_TIMELOCK: i64 = 3600;
    /// Emergency timelock for suspicious activity (in seconds)
    pub const EMERGENCY_TIMELOCK: i64 = 86400;
    /// Large transfer threshold (triggers extended timelock)
    pub const LARGE_TRANSFER_THRESHOLD: u64 = 100000000;
    /// Maximum timelock duration
    pub const MAX_TIMELOCK_DURATION: i64 = 604800;
    /// Maximum proof age in seconds (prevents replay attacks)
    pub const MAX_PROOF_AGE: i64 = 600;
    /// Merkle tree depth for transaction proofs
    pub const MERKLE_TREE_DEPTH: u8 = 32;
    /// Maximum signature verification attempts
    pub const MAX_SIGNATURE_ATTEMPTS: u8 = 3;
    /// Nonce increment value
    pub const NONCE_INCREMENT: u64 = 1;
    /// Maximum nonce value (prevents overflow)
    pub const MAX_NONCE: u64 = 18446744073709550615;
    /// Base bridge fee in basis points (0.1%)
    pub const BASE_BRIDGE_FEE_BPS: u16 = 10;
    /// Large transfer fee in basis points (0.05%)
    pub const LARGE_TRANSFER_FEE_BPS: u16 = 5;
    /// Emergency transfer fee in basis points (1%)
    pub const EMERGENCY_FEE_BPS: u16 = 100;
    /// Maximum fee in basis points (2%)
    pub const MAX_FEE_BPS: u16 = 200;
    /// Validator reward percentage of fees (50%)
    pub const VALIDATOR_REWARD_PERCENTAGE: u8 = 50;
    /// Protocol fee percentage (30%)
    pub const PROTOCOL_FEE_PERCENTAGE: u8 = 30;
    /// Treasury fee percentage (20%)
    pub const TREASURY_FEE_PERCENTAGE: u8 = 20;
    /// Solana chain ID
    pub const SOLANA_CHAIN_ID: u16 = 101;
    /// Ethereum chain ID
    pub const ETHEREUM_CHAIN_ID: u16 = 1;
    /// BSC chain ID
    pub const BSC_CHAIN_ID: u16 = 56;
    /// Polygon chain ID
    pub const POLYGON_CHAIN_ID: u16 = 137;
    /// Avalanche chain ID
    pub const AVALANCHE_CHAIN_ID: u16 = 43114;
    /// Arbitrum chain ID
    pub const ARBITRUM_CHAIN_ID: u16 = 42161;
    /// Maximum supported chains
    pub const MAX_SUPPORTED_CHAINS: u8 = 10;
    /// Bridge is active and operational
    pub const BRIDGE_STATE_ACTIVE: u8 = 1;
    /// Bridge is paused (maintenance mode)
    pub const BRIDGE_STATE_PAUSED: u8 = 2;
    /// Bridge is in emergency mode
    pub const BRIDGE_STATE_EMERGENCY: u8 = 3;
    /// Bridge is disabled
    pub const BRIDGE_STATE_DISABLED: u8 = 4;
    /// Transaction is pending validation
    pub const TX_STATE_PENDING: u8 = 1;
    /// Transaction is validated and ready for execution
    pub const TX_STATE_VALIDATED: u8 = 2;
    /// Transaction is being executed
    pub const TX_STATE_EXECUTING: u8 = 3;
    /// Transaction is completed successfully
    pub const TX_STATE_COMPLETED: u8 = 4;
    /// Transaction failed during execution
    pub const TX_STATE_FAILED: u8 = 5;
    /// Transaction was cancelled
    pub const TX_STATE_CANCELLED: u8 = 6;
    /// Transaction is expired
    pub const TX_STATE_EXPIRED: u8 = 7;
    /// Validator is active
    pub const VALIDATOR_STATE_ACTIVE: u8 = 1;
    /// Validator is inactive (temporarily)
    pub const VALIDATOR_STATE_INACTIVE: u8 = 2;
    /// Validator is slashed
    pub const VALIDATOR_STATE_SLASHED: u8 = 3;
    /// Validator is jailed
    pub const VALIDATOR_STATE_JAILED: u8 = 4;
    /// Slashing penalty for double signing (50%)
    pub const DOUBLE_SIGN_SLASH_PERCENTAGE: u8 = 50;
    /// Slashing penalty for downtime (1%)
    pub const DOWNTIME_SLASH_PERCENTAGE: u8 = 1;
    /// Slashing penalty for invalid signature (10%)
    pub const INVALID_SIGNATURE_SLASH_PERCENTAGE: u8 = 10;
    /// Maximum consecutive failures before slashing
    pub const MAX_CONSECUTIVE_FAILURES: u8 = 3;
    /// Jail duration in seconds (24 hours)
    pub const JAIL_DURATION: i64 = 86400;
    /// Block reward for validators (in tokens)
    pub const VALIDATOR_BLOCK_REWARD: u64 = 1000;
    /// Transaction fee reward multiplier
    pub const TX_FEE_REWARD_MULTIPLIER: u64 = 2;
    /// Minimum uptime required for rewards (95%)
    pub const MIN_UPTIME_FOR_REWARDS: u8 = 95;
    /// Reward distribution interval (in seconds) - 24 hours
    pub const REWARD_DISTRIBUTION_INTERVAL: i64 = 86400;
    /// Emergency pause duration (in seconds) - 1 hour
    pub const EMERGENCY_PAUSE_DURATION: i64 = 3600;
    /// Maximum emergency pause extensions
    pub const MAX_EMERGENCY_EXTENSIONS: u8 = 3;
    /// Emergency recovery threshold (requires supermajority)
    pub const EMERGENCY_RECOVERY_THRESHOLD: u8 = 75;
    /// Circuit breaker threshold (unusual activity detection)
    pub const CIRCUIT_BREAKER_THRESHOLD: u64 = 1000000000;
    /// Proposal voting period (in seconds) - 7 days
    pub const PROPOSAL_VOTING_PERIOD: i64 = 604800;
    /// Proposal execution delay (in seconds) - 2 days
    pub const PROPOSAL_EXECUTION_DELAY: i64 = 172800;
    /// Minimum proposal stake required
    pub const MIN_PROPOSAL_STAKE: u64 = 10000000;
    /// Quorum threshold for proposals (20%)
    pub const PROPOSAL_QUORUM_THRESHOLD: u8 = 20;
    /// Approval threshold for proposals (60%)
    pub const PROPOSAL_APPROVAL_THRESHOLD: u8 = 60;
    /// Rate limit per user per minute
    pub const RATE_LIMIT_PER_USER_PER_MINUTE: u8 = 10;
    /// Rate limit per IP per minute
    pub const RATE_LIMIT_PER_IP_PER_MINUTE: u8 = 50;
    /// Global rate limit per minute
    pub const GLOBAL_RATE_LIMIT_PER_MINUTE: u16 = 1000;
    /// Rate limit window in seconds
    pub const RATE_LIMIT_WINDOW: i64 = 60;
    /// Bridge config account size
    pub const BRIDGE_CONFIG_SIZE: usize = 193;
    /// Locked tokens account size
    pub const LOCKED_TOKENS_SIZE: usize = 235;
    /// Validator account size
    pub const VALIDATOR_SIZE: usize = 205;
    /// Validator set account size
    pub const VALIDATOR_SET_SIZE: usize = 932;
    /// Basis points divisor (10,000 = 100%)
    pub const BASIS_POINTS_DIVISOR: u64 = 10000;
    /// Percentage divisor (100 = 100%)
    pub const PERCENTAGE_DIVISOR: u64 = 100;
    /// Precision multiplier for calculations
    pub const PRECISION_MULTIPLIER: u64 = 1000000000;
    /// Maximum calculation precision
    pub const MAX_PRECISION: u8 = 18;
    /// Maximum address length
    pub const MAX_ADDRESS_LENGTH: usize = 64;
    /// Maximum transaction hash length
    pub const MAX_TX_HASH_LENGTH: usize = 32;
    /// Maximum proof data length
    pub const MAX_PROOF_DATA_LENGTH: usize = 1024;
    /// Maximum metadata length
    pub const MAX_METADATA_LENGTH: usize = 256;
    /// Default RPC timeout in milliseconds
    pub const DEFAULT_RPC_TIMEOUT: u64 = 30000;
    /// Maximum retry attempts for network calls
    pub const MAX_NETWORK_RETRIES: u8 = 3;
    /// Network confirmation requirements
    pub const REQUIRED_CONFIRMATIONS: u8 = 32;
    /// Block finality timeout in seconds
    pub const BLOCK_FINALITY_TIMEOUT: i64 = 300;
    /// Program upgrade authority buffer size
    pub const UPGRADE_AUTHORITY_SIZE: usize = 32;
    /// Maximum program upgrade size
    pub const MAX_UPGRADE_SIZE: usize = 1048576;
    /// Upgrade proposal voting period
    pub const UPGRADE_VOTING_PERIOD: i64 = 432000;
    /// Minimum upgrade stake required
    pub const MIN_UPGRADE_STAKE: u64 = 50000000;
}

/// Seed of the bridge configuration account (`bridge_config`).
pub const BRIDGE_CONFIG_SEED: [u8; 13] = [98, 114, 105, 100, 103, 101, 95, 99, 111, 110, 102, 105, 103];
/// Seed of locked-token accounts (`locked_tokens`).
pub const LOCKED_TOKENS_SEED: [u8; 13] = [108, 111, 99, 107, 101, 100, 95, 116, 111, 107, 101, 110, 115];
/// Seed of validator accounts (`validator`).
pub const VALIDATOR_SEED: [u8; 9] = [118, 97, 108, 105, 100, 97, 116, 111, 114];
/// Seed of the validator set account (`validator_set`).
pub const VALIDATOR_SET_SEED: [u8; 13] = [118, 97, 108, 105, 100, 97, 116, 111, 114, 95, 115, 101, 116];
/// Seed of the bridge treasury account (`bridge_treasury`).
pub const BRIDGE_TREASURY_SEED: [u8; 15] = [98, 114, 105, 100, 103, 101, 95, 116, 114, 101, 97, 115, 117, 114, 121];
/// Seed of proposal accounts (`proposal`).
pub const PROPOSAL_SEED: [u8; 8] = [112, 114, 111, 112, 111, 115, 97, 108];
/// Seed of vote accounts (`vote`).
pub const VOTE_SEED: [u8; 4] = [118, 111, 116, 101];

/// Error code: Unknown chain id.
pub const ERROR_INVALID_CHAIN_ID: u32 = 6000;
/// Error code: Stake below the minimum.
pub const ERROR_INSUFFICIENT_STAKE: u32 = 6001;
/// Error code: Unknown validator.
pub const ERROR_INVALID_VALIDATOR: u32 = 6002;
/// Error code: Bridge paused.
pub const ERROR_BRIDGE_PAUSED: u32 = 6003;
/// Error code: Amount outside the limits.
pub const ERROR_AMOUNT_EXCEEDS_LIMITS: u32 = 6004;
/// Error code: Invalid proof.
pub const ERROR_INVALID_PROOF: u32 = 6005;
/// Error code: Proof too old.
pub const ERROR_PROOF_EXPIRED: u32 = 6006;
/// Error code: Transaction already processed.
pub const ERROR_TX_ALREADY_PROCESSED: u32 = 6007;
/// Error code: Not enough validators agreed.
pub const ERROR_INSUFFICIENT_CONSENSUS: u32 = 6008;
/// Error code: Timelock still running.
pub const ERROR_TIMELOCK_NOT_EXPIRED: u32 = 6009;
/// Error code: Rate limit exceeded.
pub const ERROR_RATE_LIMIT_EXCEEDED: u32 = 6010;

/// The fee on `amount` at `fee_bps` basis points, truncated to 64 bits.
pub open spec fn spec_bridge_fee(amount: u64, fee_bps: u16) -> u64 {
    (amount * fee_bps / 10000) as u64
}

impl BridgeConstants {
    /// The fee on `amount` at `fee_bps` basis points.
    pub fn calculate_fee(amount: u64, fee_bps: u16) -> (fee: u64)
        ensures
            fee == spec_bridge_fee(amount, fee_bps),
    {
        assert(amount * fee_bps <= u64::MAX * 65535) by (nonlinear_arith)
            requires
                amount <= u64::MAX,
                fee_bps <= 65535,
        ;
        (amount as u128 * fee_bps as u128 / Self::BASIS_POINTS_DIVISOR as u128) as u64
    }

    /// Whether `amount` is a large transfer.
    pub fn is_large_transfer(amount: u64) -> (r: bool)
        ensures
            r == (amount >= Self::LARGE_TRANSFER_THRESHOLD),
    {
        amount >= Self::LARGE_TRANSFER_THRESHOLD
    }

    /// The timelock of a transfer: the emergency timelock when suspicious, the extended one
    /// for large transfers, the standard one otherwise.
    pub fn get_timelock_duration(amount: u64, is_suspicious: bool) -> (d: i64)
        ensures
            d == (if is_suspicious {
                Self::EMERGENCY_TIMELOCK
            } else if amount >= Self::LARGE_TRANSFER_THRESHOLD {
                Self::LARGE_TRANSFER_TIMELOCK
            } else {
                Self::STANDARD_TIMELOCK
            }),
    {
        if is_suspicious {
            Self::EMERGENCY_TIMELOCK
        } else if Self::is_large_transfer(amount) {
            Self::LARGE_TRANSFER_TIMELOCK
        } else {
            Self::STANDARD_TIMELOCK
        }
    }

    /// A validator's share of the block reward by stake, scaled by its uptime; nothing below
    /// the minimum uptime. Each step is truncated to 64 bits.
    pub fn calculate_validator_reward(stake: u64, total_stake: u64, block_reward: u64, uptime_percentage: u8) -> (reward: u64)
        requires
            uptime_percentage >= Self::MIN_UPTIME_FOR_REWARDS ==> total_stake > 0,
        ensures
            uptime_percentage < Self::MIN_UPTIME_FOR_REWARDS ==> reward == 0,
            uptime_percentage >= Self::MIN_UPTIME_FOR_REWARDS ==> reward == (((((block_reward * stake) / (total_stake as int)) as u64)
                * uptime_percentage) / 100) as u64,
    {
        if uptime_percentage < Self::MIN_UPTIME_FOR_REWARDS {
            return 0;
        }
        assert(block_reward * stake <= u64::MAX * u64::MAX) by (nonlinear_arith)
            requires
                block_reward <= u64::MAX,
                stake <= u64::MAX,
        ;
        let base_reward = (block_reward as u128 * stake as u128 / total_stake as u128) as u64;
        assert(base_reward * uptime_percentage <= u64::MAX * 255) by (nonlinear_arith)
            requires
                base_reward <= u64::MAX,
                uptime_percentage <= 255,
        ;
        (base_reward as u128 * uptime_percentage as u128 / 100) as u64
    }

    /// Whether `approvals` reach two thirds (67%, rounded up) of the validators.
    pub fn is_consensus_met(approvals: u8, total_validators: u8) -> (r: bool)
        ensures
            r == (approvals >= (total_validators * 67 + 99) / 100),
    {
        let required = (total_validators as u16 * Self::CONSENSUS_THRESHOLD as u16 + 99) / 100;
        approvals as u16 >= required
    }

    /// The stake slashed for a penalty: 50% for double signing (1), 1% for downtime (2), 10%
    /// for an invalid signature (3), nothing otherwise.
    pub fn calculate_slash_amount(stake: u64, penalty_type: u8) -> (amount: u64)
        ensures
            amount == stake * (if penalty_type == 1 {
                50int
            } else if penalty_type == 2 {
                1int
            } else if penalty_type == 3 {
                10int
            } else {
                0int
            }) / 100,
    {
        let percentage = if penalty_type == 1 {
            Self::DOUBLE_SIGN_SLASH_PERCENTAGE
        } else if penalty_type == 2 {
            Self::DOWNTIME_SLASH_PERCENTAGE
        } else if penalty_type == 3 {
            Self::INVALID_SIGNATURE_SLASH_PERCENTAGE
        } else {
            0
        };
        assert(stake * percentage <= u64::MAX * 50) by (nonlinear_arith)
            requires
                stake <= u64::MAX,
                percentage <= 50,
        ;
        assert(stake * percentage / 100 <= u64::MAX) by (nonlinear_arith)
            requires
                stake <= u64::MAX,
                percentage <= 50,
        ;
        (stake as u128 * percentage as u128 / Self::PERCENTAGE_DIVISOR as u128) as u64
    }
}

/// Settings of a connected chain.
#[derive(Clone, Copy, Debug, PartialEq, Eq, Structural)]
pub struct ChainConfig {
    pub chain_id: u16,
    pub min_confirmations: u8,
    pub block_time: u16,
    pub gas_limit: u64,
    pub supported_tokens: u8,
}

/// Fee rates and how fees are shared.
#[derive(Clone, Copy, Debug, PartialEq, Eq, Structural)]
pub struct FeeConfig {
    pub base_fee_bps: u16,
    pub large_transfer_fee_bps: u16,
    pub emergency_fee_bps: u16,
    pub validator_percentage: u8,
    pub protocol_percentage: u8,
    pub treasury_percentage: u8,
}

impl Default for FeeConfig {
    fn default() -> (c: Self)
        ensures
            c == (FeeConfig {
                base_fee_bps: 10,
                large_transfer_fee_bps: 5,
                emergency_fee_bps: 100,
                validator_percentage: 50,
                protocol_percentage: 30,
                treasury_percentage: 20,
            }),
    {
        FeeConfig {
            base_fee_bps: BridgeConstants::BASE_BRIDGE_FEE_BPS,
            large_transfer_fee_bps: BridgeConstants::LARGE_TRANSFER_FEE_BPS,
            emergency_fee_bps: BridgeConstants::EMERGENCY_FEE_BPS,
            validator_percentage: BridgeConstants::VALIDATOR_REWARD_PERCENTAGE,
            protocol_percentage: BridgeConstants::PROTOCOL_FEE_PERCENTAGE,
            treasury_percentage: BridgeConstants::TREASURY_FEE_PERCENTAGE,
        }
    }
}

/// Security limits.
#[derive(Clone, Copy, Debug, PartialEq, Eq, Structural)]
pub struct SecurityConfig {
    pub max_proof_age: i64,
    pub merkle_tree_depth: u8,
    pub max_signature_attempts: u8,
    pub circuit_breaker_threshold: u64,
    pub emergency_pause_duration: i64,
}

impl Default for SecurityConfig {
    fn default() -> (c: Self)
        ensures
            c == (SecurityConfig {
                max_proof_age: 600,
                merkle_tree_depth: 32,
                max_signature_attempts: 3,
                circuit_breaker_threshold: 1_000_000_000,
                emergency_pause_duration: 3600,
            }),
    {
        SecurityConfig {
            max_proof_age: BridgeConstants::MAX_PROOF_AGE,
            merkle_tree_depth: BridgeConstants::MERKLE_TREE_DEPTH,
            max_signature_attempts: BridgeConstants::MAX_SIGNATURE_ATTEMPTS,
            circuit_breaker_threshold: BridgeConstants::CIRCUIT_BREAKER_THRESHOLD,
            emergency_pause_duration: BridgeConstants::EMERGENCY_PAUSE_DURATION,
        }
    }
}

} // verus!
