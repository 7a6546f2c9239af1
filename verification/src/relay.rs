//! The data model and checking rules of the on-chain relayer: calldata
//! carried toward settlement, the on-chain program record, and the
//! BLAKE2b-256 commitments that bind calldata to its proof. The network
//! plumbing around these rules lives in the embedding application.

use crate::hashing::{blake2b256_of, blake2b_256};
use vstd::prelude::*;
use vstd::string::*;

verus! {

/// Relayer-side failures. Transport-level causes are reported by the
/// embedding application; the core states only the categories it decides.
#[derive(Debug, Clone)]
pub enum RelayerError {
    Substrate(String),
    CalldataFetchError(String),
    ExtrinsicSubmissionError(String),
    CalldataVerificationFailed,
    ConnectionTimeout,
    SequencerError(String),
}

/// A unit of calldata awaiting settlement: payload bytes, the proof bytes
/// covering them, and a 256-bit nonce in little-endian byte order.
#[derive(Debug, Clone)]
pub struct Calldata {
    pub data: Vec<u8>,
    pub proof: Vec<u8>,
    pub nonce: [u8; 32],
}

/// Descriptive metadata of an on-chain program record.
#[derive(Debug, Clone)]
pub struct BendProgramMetadata {
    pub name: String,
    pub version: String,
    pub description: String,
    pub author: String,
}

/// An on-chain program record: a 256-bit identifier, its code, and its
/// metadata.
#[derive(Debug, Clone)]
pub struct BendProgram {
    pub id: [u8; 32],
    pub code: Vec<u8>,
    pub metadata: BendProgramMetadata,
}

/// Relay statistics.
#[derive(Debug, Clone, Copy, PartialEq, Eq, Structural)]
pub struct Stats {
    pub total: usize,
    pub success: usize,
    pub error: usize,
}

/// Accepts a program exactly when it carries code.
pub fn validate_bend_program(program: &BendProgram) -> (r: Result<(), RelayerError>)
    ensures
        r is Ok <==> program.code@.len() > 0,
        r matches Err(e) ==> e matches RelayerError::Substrate(_),
{
    if program.code.len() == 0 {
        return Err(RelayerError::Substrate(String::from_str("Invalid Bend program: empty code")));
    }
    Ok(())
}

/// Whether `proof` is accepted for `data`: the proof carries at least 32
/// bytes and its first eight bytes equal the first eight bytes of the
/// BLAKE2b-256 digest of the data. The nonce does not enter the check.
pub open spec fn spec_calldata_accepted(data: Seq<u8>, proof: Seq<u8>) -> bool {
    proof.len() >= 32 && blake2b256_of(data).subrange(0, 8) == proof.subrange(0, 8)
}

/// Checks calldata against its proof.
pub fn verify_calldata(data: &[u8], proof: &[u8], _nonce: [u8; 32]) -> (r: bool)
    ensures
        r == spec_calldata_accepted(data@, proof@),
{
    if proof.len() < 32 {
        return false;
    }
    let digest = blake2b_256(data);
    let mut i: usize = 0;
    while i < 8
        invariant
            i <= 8,
            proof@.len() >= 32,
            digest@ == blake2b256_of(data@),
            digest@.len() == 32,
            forall|k: int| 0 <= k < i ==> digest@[k] == proof@[k],
        decreases 8 - i,
    {
        if digest[i] != proof[i] {
            proof {
                assert(blake2b256_of(data@).subrange(0, 8)[i as int]
                    != proof@.subrange(0, 8)[i as int]);
            }
            return false;
        }
        i = i + 1;
    }
    proof {
        assert(blake2b256_of(data@).subrange(0, 8) =~= proof@.subrange(0, 8));
    }
    true
}

/// The settlement transaction hash of calldata: the BLAKE2b-256 digest of
/// the payload, the proof, and the little-endian nonce, concatenated.
pub fn generate_tx_hash(data: &[u8], proof: &[u8], nonce: [u8; 32]) -> (r: Vec<u8>)
    ensures
        r@ == blake2b256_of(data@ + proof@ + nonce@),
        r@.len() == 32,
{
    let mut input: Vec<u8> = Vec::new();
    input.extend_from_slice(data);
    input.extend_from_slice(proof);
    input.extend_from_slice(nonce.as_slice());
    proof {
        assert(input@ =~= data@ + proof@ + nonce@);
    }
    blake2b_256(input.as_slice())
}

/// The calldata commitment of a program execution request: the BLAKE2b-256
/// digest of the program id followed by the input bytes.
pub fn execute_program_data_to_h256(program_id: [u8; 32], input: &[u8]) -> (r: Vec<u8>)
    ensures
        r@ == blake2b256_of(program_id@ + input@),
        r@.len() == 32,
{
    let mut bytes: Vec<u8> = Vec::new();
    bytes.extend_from_slice(program_id.as_slice());
    bytes.extend_from_slice(input);
    proof {
        assert(bytes@ =~= program_id@ + input@);
    }
    blake2b_256(bytes.as_slice())
}

} // verus!
