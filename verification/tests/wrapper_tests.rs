use finova::bridge_utils::{format_transaction_hash, parse_transaction_hash};
use finova::core_utils::{generate_deterministic_random, validate_guild_name, validate_referral_code};
use finova::cryptography::CryptographyManager;
use finova::security::generate_secure_nonce;
use finova::signature_verification::{hash_message_for_signature, BRIDGE_SIGNATURE_DOMAIN};

#[test]
fn keccak_nonce_matches_the_digest() {
    let seed = b"finova seed";
    let expected = solana_program::keccak::hash(seed).to_bytes();
    assert_eq!(generate_secure_nonce(seed), expected);
}

#[test]
fn deterministic_random_reads_the_digest_little_endian() {
    let user = [3u8; 32];
    let timestamp = 1_650_000_000i64;
    let nonce = 77u64;
    let mut input = Vec::new();
    input.extend_from_slice(&user);
    input.extend_from_slice(&timestamp.to_le_bytes());
    input.extend_from_slice(&nonce.to_le_bytes());
    let digest = solana_program::keccak::hash(&input).to_bytes();
    let expected = u64::from_le_bytes([digest[0], digest[1], digest[2], digest[3], digest[4], digest[5], digest[6], digest[7]]);
    assert_eq!(generate_deterministic_random(&user, timestamp, nonce), expected);
}

#[test]
fn signature_hash_is_sha256_of_domain_and_message() {
    let message = b"lock 100 FIN";
    let expected = solana_program::hash::hashv(&[&BRIDGE_SIGNATURE_DOMAIN[..], &message[..]]).to_bytes();
    assert_eq!(hash_message_for_signature(message).unwrap(), expected);
}

#[test]
fn empty_message_has_no_signature_hash() {
    assert!(hash_message_for_signature(b"").is_err());
}

#[test]
fn transaction_hash_round_trips_through_hex() {
    let mut hash = [0u8; 32];
    for i in 0..32 {
        hash[i] = (i * 7) as u8;
    }
    let text = format_transaction_hash(&hash);
    assert_eq!(text, hex::encode(hash));
    assert_eq!(parse_transaction_hash(&text).unwrap(), hash);
}

#[test]
fn short_or_bad_hex_is_not_a_transaction_hash() {
    assert!(parse_transaction_hash("abcd").is_err());
    assert!(parse_transaction_hash("zz").is_err());
}

#[test]
fn merkle_pair_hash_sorts_its_inputs() {
    let a = [1u8; 32];
    let b = [2u8; 32];
    let mut joined = Vec::new();
    joined.extend_from_slice(&a);
    joined.extend_from_slice(&b);
    let expected = solana_program::keccak::hash(&joined).to_bytes();
    assert_eq!(CryptographyManager::hash_pair(&a, &b), expected);
    assert_eq!(CryptographyManager::hash_pair(&b, &a), expected);
}

#[test]
fn generated_merkle_proof_verifies_against_the_root() {
    let leaves: Vec<[u8; 32]> = (0..5u8).map(|i| [i + 10; 32]).collect();
    let root = CryptographyManager::build_merkle_root(&leaves).unwrap();
    for leaf in &leaves {
        let proof = CryptographyManager::generate_merkle_proof(leaf, &leaves).unwrap();
        assert_eq!(proof.len(), 3);
        assert!(proof.iter().all(|node| node.len() == 32));
        assert!(CryptographyManager::verify_merkle_proof(leaf, &proof, &root).unwrap());
    }
    let stranger = [99u8; 32];
    assert!(CryptographyManager::generate_merkle_proof(&stranger, &leaves).is_err());
}

#[test]
fn garbage_secp256k1_signature_is_rejected() {
    let hash = [5u8; 32];
    let signature = [7u8; 64];
    let expected = [7u8; 64];
    let outcome = CryptographyManager::verify_secp256k1_signature(&hash, &signature, &0, &expected);
    assert!(!matches!(outcome, Ok(true)));
    assert!(CryptographyManager::verify_secp256k1_signature(&hash, &signature, &4, &expected).is_err());
}

#[test]
fn unicode_letters_are_alphanumeric_in_codes() {
    assert!(validate_referral_code("ABCDé1").is_ok());
    assert!(validate_referral_code("ABC-12").is_err());
}

#[test]
fn unicode_whitespace_is_trimmed_from_guild_names() {
    assert!(validate_guild_name("Guild\u{2003}").is_err());
    assert!(validate_guild_name("\tGuild").is_err());
    assert!(validate_guild_name("Mid Space").is_ok());
}
