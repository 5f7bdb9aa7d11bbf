//! Error codes returned by the core program and by the bridge.
use vstd::prelude::*;

verus! {

/// Errors of the core social-mining program.
#[derive(Clone, Copy, Debug, PartialEq, Eq, Structural)]
pub enum FinovaError {
    InvalidReferralCode,
    InvalidGuildName,
    InvalidSocialPlatform,
    InvalidContentType,
    InvalidAmount,
    InvalidTimestamp,
    InvalidQualityScore,
    InsufficientStakeAmount,
    InvalidStakeDuration,
    NetworkTooLarge,
    NetworkTooDeep,
    InsufficientNetworkQuality,
    InvalidSessionStart,
    SessionTooLong,
    InvalidSessionDuration,
    UserNotInitialized,
    KYCRequired,
    SystemPaused,
    InsufficientXP,
    BotDetected,
    UserInCooldown,
    DailyLimitExceeded,
    InsufficientLevel,
    InvalidSignature,
    InvalidAccountOwner,
    InsufficientLamports,
    DuplicateActivity,
    ArithmeticOverflow,
    ExcessiveBonusXP,
    ReasonTooLong,
    InvalidBoosterDuration,
    ReferralCodeAlreadyExists,
    CannotReferSelf,
    AlreadyReferred,
    ReferralCapacityExceeded,
    NoRewardsToClaim,
    InsufficientRewards,
    TierUpgradeNotAvailable,
    InvalidParameter,
    VotingPeriodTooShort,
    VotingPeriodTooLong,
    InvalidProposalId,
    TitleTooLong,
    DescriptionTooLong,
    ExecutionDataTooLong,
    InsufficientVotingPower,
    InsufficientBalance,
    VotingPeriodEnded,
    ProposalNotActive,
    NoVotingPower,
    VotingStillActive,
    ProposalNotPassed,
    ExecutionDelayNotMet,
    CannotDelegateToSelf,
    CannotCancelAfterVoting,
    Unauthorized,
    MetadataTooLong,
    ReporterNotVerified,
    CannotReportSelf,
    InsufficientReporterScore,
    TooManyPatterns,
    InvalidParameterValue,
    UserNotVerified,
    RewardCalculationTooSoon,
    InvalidActivityData,
    DailyActivityLimitExceeded,
    NoPendingRewards,
    InsufficientRewardPool,
    ClaimTooSoon,
    NoSpecialCardOwned,
    CardBoostAlreadyActive,
    TooManyActiveBoosts,
    UnsupportedPlatform,
    ExpiredQualityAssessment,
    UnauthorizedAccess,
    UnauthorizedQualityAssessment,
}

/// Errors of the cross-chain bridge.
#[derive(Clone, Copy, Debug, PartialEq, Eq, Structural)]
pub enum BridgeError {
    InvalidMerkleProof,
    InsufficientValidatorSignatures,
    InvalidProofElement,
    InvalidSignature,
    EmptyTransactionBatch,
    EmptyMerkleTree,
    TransactionNotFound,
    UntrustedRelayer,
    InvalidThreshold,
    InvalidValidatorCount,
    InvalidProofDepth,
    EmptyInput,
    InputTooLarge,
    FutureTimestamp,
    ExpiredTimestamp,
    InvalidSignatureLength,
    InvalidPublicKeyLength,
    InvalidMessageLength,
    SignatureVerificationFailed,
    NoSignaturesProvided,
    TooManySignatures,
    InsufficientSignatures,
    NoValidatorsInSet,
    InvalidThresholdPercentage,
    ValidatorIndexOutOfBounds,
    ValidatorNotActive,
    EmptyMessage,
    SignatureMessageCountMismatch,
    InvalidSignatureFormat,
    InvalidPublicKeyFormat,
    InvalidMessageHashFormat,
    SignatureTimestampOutOfRange,
    MathOverflow,
    UnsupportedChain,
    InvalidAmount,
    AmountTooSmall,
    AmountTooLarge,
    ThresholdTooHigh,
    ThresholdTooLow,
    InsufficientValidSignatures,
    InvalidNonce,
    NonceTooHigh,
    InvalidTransactionHash,
    InsufficientBalance,
    InvalidDestinationChain,
    UnsupportedDestinationChain,
    InvalidRecipient,
    DailyLimitExceeded,
    InsufficientConfirmationsRequired,
    HighValueNotWhitelisted,
    TransactionTooFrequent,
    UnauthorizedValidator,
    InvalidEmergencyCode,
    EmergencyModeNotEnabled,
    MinLockDurationNotMet,
    UnlockWindowExpired,
    InvalidUnlockAmount,
    AmountMismatch,
    InsufficientAmountAfterFees,
    RateLimitExceeded,
    ValidatorAlreadySigned,
    InsufficientConfirmations,
    BridgePaused,
    NotPaused,
    AlreadyUnlocked,
    InvalidConfirmationCount,
    InvalidConsensusThreshold,
    InvalidRotationFrequency,
    ValidatorSetFull,
    InsufficientStake,
    InvalidCommissionRate,
    ValidatorAlreadyExists,
    ValidatorNotFound,
    RotationNotDue,
}

} // verus!
