use finova::bridge_instructions::{
    BridgeValidator, FeeCalculator, ProofData, TokenType, FIN_MINT_PUBKEY, SFIN_MINT_PUBKEY, SUSDFIN_MINT_PUBKEY,
    USDFIN_MINT_PUBKEY,
};
use finova::lock_tokens::calculate_fee;
use finova::locked_tokens::{DailyStats, LockStatus, UserTier, ValidatorSignature};
use finova::signature_verification::{
    aggregate_verification_results, calculate_signature_threshold, get_validator_public_key,
    hash_message_for_signature, is_valid_validator_index, validate_signature_format, MultiSignatureVerification,
    SignatureData, Validator, ValidatorRegistry,
};
use finova::unlock_tokens::{calculate_bridge_fee, create_unlock_leaf_data, create_unlock_message};

fn create_test_validator_set() -> ValidatorRegistry {
    let empty = Validator {
        public_key: [0u8; 32],
        is_active: false,
        stake_amount: 0,
        last_activity_slot: 0,
        reputation_score: 0,
        total_votes: 0,
        successful_votes: 0,
    };
    let mut validators = vec![empty; 32];
    for i in 0..5 {
        validators[i] = Validator {
            public_key: [i as u8; 32],
            is_active: true,
            stake_amount: 1000000,
            last_activity_slot: 0,
            reputation_score: 100,
            total_votes: 0,
            successful_votes: 0,
        };
    }
    ValidatorRegistry {
        validators,
        validator_count: 5,
        active_validator_count: 5,
        total_stake: 5000000,
        last_update_slot: 0,
    }
}

#[test]
fn test_calculate_signature_threshold() {
    assert_eq!(calculate_signature_threshold(5, 67).unwrap(), 3);
    assert_eq!(calculate_signature_threshold(3, 67).unwrap(), 2);
    assert_eq!(calculate_signature_threshold(10, 51).unwrap(), 5);
    assert_eq!(calculate_signature_threshold(1, 100).unwrap(), 2);
}

#[test]
fn test_validate_signature_format() {
    let now = 1640995200 + 100;
    let valid_signature = SignatureData {
        signature: [1u8; 64],
        public_key: [2u8; 32],
        message_hash: [3u8; 32],
        validator_index: 0,
        timestamp: 1640995200,
    };
    assert!(validate_signature_format(&valid_signature, now).is_ok());

    let invalid_signature = SignatureData {
        signature: [0u8; 64],
        public_key: [2u8; 32],
        message_hash: [3u8; 32],
        validator_index: 0,
        timestamp: 1640995200,
    };
    assert!(validate_signature_format(&invalid_signature, now).is_err());
}

#[test]
fn test_hash_message_for_signature() {
    let message = b"test message";
    let hash1 = hash_message_for_signature(message).unwrap();
    let hash2 = hash_message_for_signature(message).unwrap();
    assert_eq!(hash1, hash2);

    let different_message = b"different message";
    let hash3 = hash_message_for_signature(different_message).unwrap();
    assert_ne!(hash1, hash3);
}

#[test]
fn test_validator_operations() {
    let validator_set = create_test_validator_set();
    assert!(is_valid_validator_index(0, &validator_set).unwrap());
    assert!(is_valid_validator_index(4, &validator_set).unwrap());
    assert!(!is_valid_validator_index(5, &validator_set).unwrap());
    assert!(!is_valid_validator_index(10, &validator_set).unwrap());

    let pubkey = get_validator_public_key(0, &validator_set).unwrap();
    assert_eq!(pubkey, [0u8; 32]);
    let pubkey2 = get_validator_public_key(2, &validator_set).unwrap();
    assert_eq!(pubkey2, [2u8; 32]);
}

#[test]
fn test_aggregate_verification_results() {
    let verifications = vec![
        MultiSignatureVerification {
            signatures: vec![],
            message: vec![],
            required_threshold: 3,
            verified_count: 3,
            is_valid: true,
        },
        MultiSignatureVerification {
            signatures: vec![],
            message: vec![],
            required_threshold: 3,
            verified_count: 2,
            is_valid: false,
        },
    ];
    let summary = aggregate_verification_results(&verifications).unwrap();
    assert_eq!(summary.total_messages, 2);
    assert_eq!(summary.successful_verifications, 1);
    assert_eq!(summary.failed_verifications, 1);
    assert_eq!(summary.success_rate, 50);
}

#[test]
fn lock_tokens_test_fee_calculation() {
    let amount = 1000000;
    let base_fee_rate = 50;
    let min_fee = 1000;
    let max_fee = 100000;
    let fee = calculate_fee(amount, base_fee_rate, min_fee, max_fee).unwrap();
    assert_eq!(fee, 5000);
}

#[test]
fn test_chain_multiplier() {
    let base_fee = 5000;
    let multiplier = 1500;
    let precision = 1000;
    let total_fee = base_fee * multiplier / precision;
    assert_eq!(total_fee, 7500);
}

#[test]
fn test_token_type_mint_address() {
    assert_eq!(TokenType::Fin.get_mint_address().unwrap(), FIN_MINT_PUBKEY);
    assert_eq!(TokenType::SFin.get_mint_address().unwrap(), SFIN_MINT_PUBKEY);
    assert_eq!(TokenType::UsdFin.get_mint_address().unwrap(), USDFIN_MINT_PUBKEY);
    assert_eq!(TokenType::SUsdFin.get_mint_address().unwrap(), SUSDFIN_MINT_PUBKEY);
}

#[test]
fn mod_test_fee_calculation() {
    let amount = 1000_000_000;
    let fee_rate = 100;
    let expected_fee = 10_000_000;
    let fee = FeeCalculator::calculate_lock_fee(amount, fee_rate).unwrap();
    assert_eq!(fee, expected_fee);
}

#[test]
fn test_validator_threshold_validation() {
    assert!(BridgeValidator::validate_validator_threshold(5, 3).is_ok());
    assert!(BridgeValidator::validate_validator_threshold(5, 2).is_err());
    assert!(BridgeValidator::validate_validator_threshold(5, 6).is_err());
    assert!(BridgeValidator::validate_validator_threshold(5, 0).is_err());
}

#[test]
fn test_amount_validation() {
    assert!(BridgeValidator::validate_amount(1000, &TokenType::Fin).is_ok());
    assert!(BridgeValidator::validate_amount(0, &TokenType::Fin).is_err());
    assert!(BridgeValidator::validate_amount(u64::MAX, &TokenType::Fin).is_err());
}

#[test]
fn test_nonce_validation() {
    assert!(BridgeValidator::validate_nonce(5, 4).is_ok());
    assert!(BridgeValidator::validate_nonce(4, 4).is_err());
    assert!(BridgeValidator::validate_nonce(3, 4).is_err());
}

#[test]
fn test_proof_data_hash() {
    let proof = ProofData::new([1u8; 32], [2u8; 32], [3u8; 32], vec![[4u8; 32]], 1, 1000, [0u8; 32], TokenType::Fin, 1);
    let hash1 = proof.hash().unwrap();
    let hash2 = proof.hash().unwrap();
    assert_eq!(hash1, hash2);
}

#[test]
fn test_create_unlock_leaf_data() {
    let tx_hash = [1u8; 32];
    let source_chain_id = 1u16;
    let amount = 1000u64;
    let recipient = [7u8; 32];
    let destination_chain_id = 2u16;
    let leaf_data = create_unlock_leaf_data(tx_hash, source_chain_id, amount, recipient, destination_chain_id);
    assert_eq!(leaf_data.len(), 32 + 2 + 8 + 32 + 2);
    assert_eq!(&leaf_data[0..32], &tx_hash);
    assert_eq!(&leaf_data[32..34], &source_chain_id.to_le_bytes());
    assert_eq!(&leaf_data[34..42], &amount.to_le_bytes());
    assert_eq!(&leaf_data[42..74], &recipient[..]);
    assert_eq!(&leaf_data[74..76], &destination_chain_id.to_le_bytes());
}

#[test]
fn test_calculate_bridge_fee() {
    let fee = calculate_bridge_fee(10000, 100, 10, 1000);
    assert_eq!(fee, 100);
    let fee = calculate_bridge_fee(100, 100, 10, 1000);
    assert_eq!(fee, 10);
    let fee = calculate_bridge_fee(1000000, 100, 10, 1000);
    assert_eq!(fee, 1000);
    let fee = calculate_bridge_fee(10000, 0, 10, 1000);
    assert_eq!(fee, 0);
}

#[test]
fn test_create_unlock_message() {
    let tx_hash = [2u8; 32];
    let source_chain_id = 1u16;
    let amount = 5000u64;
    let recipient = [9u8; 32];
    let destination_chain_id = 2u16;
    let timestamp = 1640995200u64;
    let message = create_unlock_message(tx_hash, source_chain_id, amount, recipient, destination_chain_id, timestamp);
    assert!(message.starts_with(b"FINOVA_UNLOCK:"));
    assert!(message.len() > 14);
}

#[test]
fn test_lock_status_default() {
    assert_eq!(LockStatus::default(), LockStatus::Locked);
}

#[test]
fn test_user_tier_ordering() {
    let bronze = UserTier::Bronze;
    let silver = UserTier::Silver;
    let gold = UserTier::Gold;
    let platinum = UserTier::Platinum;
    assert_ne!(bronze, silver);
    assert_ne!(silver, gold);
    assert_ne!(gold, platinum);
}

#[test]
fn test_validator_signature_len() {
    assert_eq!(ValidatorSignature::LEN, 32 + 64 + 32);
}

#[test]
fn test_daily_stats_len() {
    assert_eq!(DailyStats::LEN, 8 + 8 + 8 + 8 + 8);
}
