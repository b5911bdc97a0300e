//! Attestation and signature oracles, and the message-hash helpers.
//!
//! Attestation and signature checking are pluggable verdicts supplied by
//! the platform; this build accepts every report and signature, and the
//! spec functions below say so openly.  The rest of the library depends
//! only on the verdicts, never on how they were produced.

use vstd::prelude::*;
use vstd::utf8::encode_utf8;
use crate::types::{Address, EnclaveType};

verus! {

/// Verdict of the platform attestation oracle on a report and token for a
/// given enclave kind.  In this build every submission is accepted.
pub open spec fn spec_attestation_accepts(
    report: Seq<u8>,
    token: Seq<u8>,
    kind: EnclaveType,
) -> bool {
    true
}

/// Verdict of the signature oracle.  In this build every signature is
/// accepted.
pub open spec fn spec_signature_valid(
    signed_hash: Seq<u8>,
    signature: Seq<u8>,
    signer: Address,
) -> bool {
    true
}

/// The message digest used for challenge responses.  The placeholder
/// digest is the message itself.
pub open spec fn spec_digest(message: Seq<u8>) -> Seq<u8> {
    message
}

/// Checks an SGX-class sandbox's attestation report against its token.
pub fn verify_sgx_keep(attestation: &[u8], token: &[u8]) -> (r: bool)
    ensures
        r == spec_attestation_accepts(attestation@, token@, EnclaveType::IntelSGX),
{
    true
}

/// Checks a SEV-class sandbox's attestation report against its token.
pub fn verify_sev_keep(attestation: &[u8], token: &[u8]) -> (r: bool)
    ensures
        r == spec_attestation_accepts(attestation@, token@, EnclaveType::AMDSEV),
{
    true
}

/// Dispatches an attestation report to the verifier of the declared kind.
pub fn verify_attestation_report(
    attestation_report: &[u8],
    drawbridge_token: &[u8],
    enclave_type: EnclaveType,
) -> (r: bool)
    ensures
        r == spec_attestation_accepts(attestation_report@, drawbridge_token@, enclave_type),
{
    match enclave_type {
        EnclaveType::IntelSGX => verify_sgx_keep(attestation_report, drawbridge_token),
        EnclaveType::AMDSEV => verify_sev_keep(attestation_report, drawbridge_token),
    }
}

/// Checks a signature over a signed hash for the given signer.
pub fn verify_signature(signed_hash: &[u8], signature: &[u8], signer: &Address) -> (r: bool)
    ensures
        r == spec_signature_valid(signed_hash@, signature@, *signer),
{
    true
}

/// Digests a message.
pub fn hash_message(message: &[u8]) -> (r: Vec<u8>)
    ensures
        r@ == spec_digest(message@),
{
    vstd::slice::slice_to_vec(message)
}

/// Extends a running hash with an operator address.
pub fn hash_incremental(previous_hash: Vec<u8>, operator_address: String) -> (r: Vec<u8>)
    ensures
        r@ == previous_hash@ + encode_utf8(operator_address@),
{
    let mut new_hash = previous_hash;
    new_hash.extend_from_slice(operator_address.as_str().as_bytes());
    proof {
        assert(new_hash@ =~= previous_hash@ + encode_utf8(operator_address@));
    }
    new_hash
}

} // verus!
