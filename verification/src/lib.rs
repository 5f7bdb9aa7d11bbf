//! Verified core logic of the Finova social-mining network and its token bridge.
use vstd::prelude::*;

pub mod anti_bot;
pub mod bridge_constants;
pub mod bridge_instructions;
pub mod bridge_utils;
pub mod core_constants;
pub mod core_helpers;
pub mod core_state;
pub mod core_utils;
pub mod cryptography;
pub mod hashing;
pub mod lock_tokens;
pub mod locked_tokens;
pub mod errors;
pub mod events;
pub mod governance;
pub mod governance_events;
pub mod merkle;
pub mod quality;
pub mod referral;
pub mod rewards;
pub mod security;
pub mod seq_facts;
pub mod signature_verification;
pub mod text;
pub mod unlock_tokens;
pub mod validator_set;
pub mod xp;

verus! {
} // verus!
