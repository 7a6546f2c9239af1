//! The verifier: caches the serialized verifying key together with its
//! public-input row count, gates the input length, and runs the
//! deterministic Groth16 check on proof bytes.

use crate::error::HVMError;
use crate::snark::{groth16_verify, groth16_vk_rows, spec_groth16_accepts, spec_proof_decodes, spec_vk_rows};
use crate::zk_rollup::Proof;
use vstd::prelude::*;
use vstd::string::*;

verus! {

/// The verifier. `rows` caches the gamma_abc_g1 length of the key — the
/// preprocessed form the input-length gate needs — and is absent exactly
/// when the key bytes do not deserialize.
pub struct ZKVerifier {
    verifying_key: Vec<u8>,
    rows: Option<usize>,
}

impl ZKVerifier {
    /// The serialized verifying key.
    pub closed spec fn spec_verifying_key(self) -> Seq<u8> {
        self.verifying_key@
    }

    /// The cached row count mirrors the key bytes.
    pub closed spec fn wf(self) -> bool {
        &&& (self.rows matches Some(n) ==> spec_vk_rows(self.verifying_key@) == Some(n as nat))
        &&& (self.rows is Some <==> spec_vk_rows(self.verifying_key@) is Some)
    }

    /// Whether the key bytes deserialize at all.
    pub open spec fn spec_key_decodes(self) -> bool {
        spec_vk_rows(self.spec_verifying_key()) is Some
    }

    /// Whether the cached key deserialized.
    pub fn key_decodes(&self) -> (r: bool)
        requires
            self.wf(),
        ensures
            r == self.spec_key_decodes(),
    {
        self.rows.is_some()
    }

    /// A verifier around a serialized verifying key.
    pub fn new(verifying_key: Vec<u8>) -> (r: ZKVerifier)
        ensures
            r.wf(),
            r.spec_verifying_key() == verifying_key@,
    {
        let rows = groth16_vk_rows(&verifying_key);
        ZKVerifier { verifying_key, rows }
    }

    /// Checks a proof against the cached key and the given public inputs.
    /// Rejects with the malformed-key error exactly when the key does not
    /// deserialize or the input count plus one differs from the key's
    /// gamma_abc_g1 length; rejects with the malformed-proof error exactly
    /// when the proof bytes do not deserialize; otherwise returns the
    /// deterministic Groth16 answer for these bytes and inputs.
    pub fn verify_proof(&self, proof: &Proof, public_inputs: &Vec<u64>) -> (r: Result<bool, HVMError>)
        requires
            self.wf(),
        ensures
            r matches Ok(b) ==> b == spec_groth16_accepts(
                self.spec_verifying_key(), proof@, public_inputs@),
            r is Ok <==> (spec_vk_rows(self.spec_verifying_key())
                == Some((public_inputs@.len() + 1) as nat)
                && spec_proof_decodes(proof@)),
            r matches Err(e) ==> e matches HVMError::Verifier(_),
            !(spec_vk_rows(self.spec_verifying_key()) == Some((public_inputs@.len() + 1) as nat))
                ==> (r matches Err(e) && e.spec_message() == "Malformed verifying key"@),
            (spec_vk_rows(self.spec_verifying_key()) == Some((public_inputs@.len() + 1) as nat)
                && !spec_proof_decodes(proof@))
                ==> (r matches Err(e) && e.spec_message() == "Failed to deserialize proof"@),
    {
        match self.rows {
            None => Err(HVMError::Verifier(String::from_str("Malformed verifying key"))),
            Some(n) => {
                if n == 0 || public_inputs.len() != n - 1 {
                    return Err(HVMError::Verifier(String::from_str("Malformed verifying key")));
                }
                match groth16_verify(&self.verifying_key, &proof.data, public_inputs) {
                    Ok(b) => Ok(b),
                    Err(_) => Err(HVMError::Verifier(String::from_str("Failed to deserialize proof"))),
                }
            },
        }
    }
}

/// Builds a verifier around a serialized verifying key.
pub fn create_zk_verifier(verifying_key: Vec<u8>) -> (r: ZKVerifier)
    ensures
        r.wf(),
        r.spec_verifying_key() == verifying_key@,
{
    ZKVerifier::new(verifying_key)
}

/// Verification reads nothing but the key bytes, the proof bytes and the
/// public inputs: byte-identical proofs — in particular a proof carried
/// through any serialization round trip — receive the same answer.
pub proof fn lemma_verification_depends_on_bytes(
    vk: Seq<u8>,
    first: Seq<u8>,
    second: Seq<u8>,
    inputs: Seq<u64>,
)
    requires
        first == second,
    ensures
        spec_groth16_accepts(vk, first, inputs) == spec_groth16_accepts(vk, second, inputs),
{
}

} // verus!
