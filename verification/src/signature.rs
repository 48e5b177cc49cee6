//! Replay protection for signed payloads: chain, contract and version
//! binding, and per-user sequential nonces.
use vstd::prelude::*;
use crate::types::AccountId;

verus! {

/// Failures of signature-payload checks.
#[derive(Copy, Clone, Debug, PartialEq, Eq, Structural)]
pub enum SignatureError {
    InvalidSignature,
    InvalidNonce,
    InvalidChainId,
    InvalidContractAddress,
    InvalidVersion,
}

/// The signed envelope.
#[derive(Clone, Debug, PartialEq, Eq)]
pub struct SignaturePayload {
    pub chain_id: u32,
    pub contract_address: AccountId,
    pub version: u32,
    pub nonce: u64,
    pub payload_hash: [u8; 32],
}

/// Checks a payload against the configured chain id (0 leaves it unchecked),
/// the executing contract, and the expected version, in that order.
pub fn verify_signature_payload(
    expected_chain_id: u32,
    current_contract: AccountId,
    payload: &SignaturePayload,
    expected_version: u32,
) -> (r: Result<(), SignatureError>)
    ensures
        r == (if expected_chain_id != 0 && payload.chain_id != expected_chain_id {
            Err(SignatureError::InvalidChainId)
        } else if payload.contract_address != current_contract {
            Err(SignatureError::InvalidContractAddress)
        } else if payload.version != expected_version {
            Err(SignatureError::InvalidVersion)
        } else {
            Ok(())
        }),
{
    if expected_chain_id != 0 && payload.chain_id != expected_chain_id {
        return Err(SignatureError::InvalidChainId);
    }
    if payload.contract_address != current_contract {
        return Err(SignatureError::InvalidContractAddress);
    }
    if payload.version != expected_version {
        return Err(SignatureError::InvalidVersion);
    }
    Ok(())
}

/// A user's current nonce (0 before the first use).
pub fn get_nonce(stored: Option<u64>) -> (r: u64)
    ensures
        r == (match stored { Some(n) => n, None => 0 }),
{
    match stored {
        Some(n) => n,
        None => 0,
    }
}

/// Consumes `expected_nonce`: it must equal the current nonce; returns the next nonce to store.
pub fn consume_nonce(current_nonce: u64, expected_nonce: u64) -> (r: Result<u64, SignatureError>)
    requires
        current_nonce < u64::MAX,
    ensures
        r == (if current_nonce != expected_nonce { Err(SignatureError::InvalidNonce) } else { Ok((current_nonce + 1) as u64) }),
{
    if current_nonce != expected_nonce {
        return Err(SignatureError::InvalidNonce);
    }
    Ok(current_nonce + 1)
}

/// A consumed nonce can never be consumed again.
pub proof fn lemma_nonce_not_replayable(current: u64, n: u64)
    requires
        current == n,
        current < u64::MAX,
    ensures
        (current + 1) as u64 != n,
{
}

} // verus!
