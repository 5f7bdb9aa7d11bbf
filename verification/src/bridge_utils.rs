//! Small helpers of bridge operations: operation ids, destination addresses, emergency
//! admins and the hex form of transaction hashes.
use vstd::prelude::*;

use crate::bridge_instructions::{BRIDGE_VERSION, EMERGENCY_ADMINS};
use crate::errors::BridgeError;
use crate::hashing::{append_bytes, keccak256, le_bytes, push_le_bytes, spec_keccak256};
use crate::merkle::bytes32_eq;

verus! {

/// The lower-case hexadecimal digit of a value below 16.
pub open spec fn hex_digit(v: int) -> char {
    if v < 10 { (48 + v) as char } else { (87 + v) as char }
}

/// Lower-case hexadecimal text of a byte string, two digits per byte, high digit first.
pub open spec fn hex_text(bytes: Seq<u8>) -> Seq<char> {
    Seq::new(2 * bytes.len(), |i: int| if i % 2 == 0 { hex_digit(bytes[i / 2] as int / 16) } else { hex_digit(bytes[i / 2] as int % 16) })
}

/// The value of a hexadecimal digit in either case, if `c` is one.
pub open spec fn hex_value(c: char) -> Option<int> {
    if '0' <= c && c <= '9' {
        Some(c as int - 48)
    } else if 'a' <= c && c <= 'f' {
        Some(c as int - 87)
    } else if 'A' <= c && c <= 'F' {
        Some(c as int - 55)
    } else {
        None
    }
}

/// The bytes that hexadecimal text stands for: `None` unless it has an even number of
/// characters, all hexadecimal digits.
pub open spec fn hex_bytes(text: Seq<char>) -> Option<Seq<u8>> {
    if text.len() % 2 == 0 && forall|i: int| 0 <= i < text.len() ==> (#[trigger] hex_value(text[i])) is Some {
        Some(Seq::new(text.len() / 2, |k: int| (hex_value(text[2 * k])->Some_0 * 16 + hex_value(text[2 * k + 1])->Some_0) as u8))
    } else {
        None
    }
}

/// Calls `hex::encode`, which writes each byte as two lower-case hexadecimal digits, high
/// digit first.
#[verifier::external_body]
fn hex_encode(data: &[u8]) -> (text: String)
    ensures
        text@ == hex_text(data@),
{
    hex::encode(data)
}

/// Calls `hex::decode` on the string's bytes: it fails on an odd length or on any byte that is
/// not a hexadecimal digit of either case (a non-ASCII character is never one), and otherwise
/// gives one byte per pair of digits. The failure is returned as `None`.
#[verifier::external_body]
fn hex_decode(text: &str) -> (bytes: Option<Vec<u8>>)
    ensures
        match bytes {
            Some(v) => hex_bytes(text@) == Some(v@),
            None => hex_bytes(text@) is None,
        },
{
    match hex::decode(text) {
        Ok(v) => Some(v),
        Err(_) => None,
    }
}

/// An operation id taken from the current time: the bits of `now` as a `u64`.
pub fn generate_operation_id(now: i64) -> (id: u64)
    ensures
        id == now as u64,
{
    now as u64
}

/// The bytes hashed to derive a destination address.
pub open spec fn destination_message(recipient: Seq<u8>, chain_id: u64) -> Seq<u8> {
    recipient + le_bytes(chain_id, 8)
}

/// The address of `recipient` on chain `chain_id`: the Keccak-256 hash of the key and the
/// chain id.
pub fn calculate_destination_address(recipient: &[u8; 32], chain_id: u64) -> (address: [u8; 32])
    ensures
        address == spec_keccak256(destination_message(recipient@, chain_id)),
{
    let mut data: Vec<u8> = Vec::new();
    append_bytes(&mut data, recipient);
    push_le_bytes(&mut data, chain_id, 8);
    assert(data@ =~= destination_message(recipient@, chain_id));
    keccak256(data.as_slice())
}

/// Whether `admin` may pause the bridge in an emergency.
pub fn is_emergency_admin(admin: &[u8; 32]) -> (r: bool)
    ensures
        r == EMERGENCY_ADMINS@.contains(*admin),
{
    let admins: [[u8; 32]; 2] = EMERGENCY_ADMINS;
    let mut i: usize = 0;
    while i < 2
        invariant
            i <= 2,
            admins@ == EMERGENCY_ADMINS@,
            admins@.len() == 2,
            forall|j: int| 0 <= j < i ==> admins@[j] != *admin,
        decreases 2 - i,
    {
        if bytes32_eq(&admins[i], admin) {
            assert(admins@[i as int] == *admin);
            return true;
        }
        i = i + 1;
    }
    false
}

/// The version of the bridge program.
pub fn get_bridge_version() -> (v: u8)
    ensures
        v == BRIDGE_VERSION,
{
    BRIDGE_VERSION
}

/// A transaction hash as lower-case hexadecimal text.
pub fn format_transaction_hash(hash: &[u8; 32]) -> (text: String)
    ensures
        text@ == hex_text(hash@),
{
    hex_encode(hash)
}

/// Reads a transaction hash from hexadecimal text; the text must stand for exactly 32 bytes.
pub fn parse_transaction_hash(hash_str: &str) -> (res: Result<[u8; 32], BridgeError>)
    ensures
        match hex_bytes(hash_str@) {
            Some(b) => if b.len() == 32 {
                res matches Ok(h) && h@ == b
            } else {
                res == Err::<[u8; 32], BridgeError>(BridgeError::InvalidTransactionHash)
            },
            None => res == Err::<[u8; 32], BridgeError>(BridgeError::InvalidTransactionHash),
        },
{
    let bytes = match hex_decode(hash_str) {
        Some(b) => b,
        None => { return Err(BridgeError::InvalidTransactionHash); },
    };
    if bytes.len() != 32 {
        return Err(BridgeError::InvalidTransactionHash);
    }
    let mut hash: [u8; 32] = [0u8; 32];
    let mut i: usize = 0;
    while i < 32
        invariant
            i <= 32,
            bytes@.len() == 32,
            hash@.len() == 32,
            forall|j: int| 0 <= j < i ==> hash@[j] == bytes@[j],
        decreases 32 - i,
    {
        hash[i] = bytes[i];
        i = i + 1;
    }
    assert(hash@ =~= bytes@);
    Ok(hash)
}

} // verus!
