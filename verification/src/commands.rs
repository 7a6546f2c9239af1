//! Operator commands: deploying a program into the store, driving the
//! batcher once, and assembling a full engine to check a key pair against a
//! known-good configuration.

use crate::bend::{BendProgram, ProgramMetadata};
use crate::config::{Config, ProverConfig, SequencerConfig, VerifierConfig};
use crate::error::HVMError;
use crate::snark::{spec_pk_decodes, spec_vk_rows};
use crate::storage::Storage;
use crate::OffchainLabs;
use vstd::prelude::*;
use vstd::string::*;

verus! {

/// Builds a small sample program and stores it in a fresh content-addressed
/// store; the store deduplicates by bytecode hash.
pub fn upload_bend_program() -> (r: Result<(), HVMError>)
    ensures
        r is Ok,
{
    let mut storage = Storage::new();
    let program = BendProgram::new(
        vec![1u8, 2, 3, 4],
        ProgramMetadata {
            name: String::from_str("Test Program"),
            version: String::from_str("1.0.0"),
            description: String::from_str("Bend program for test"),
        },
        String::from_str("Test Author"),
        0,
    );
    match storage.store_program(program) {
        Ok(_) => Ok(()),
        Err(e) => Err(e),
    }
}

/// Drives a fresh sequencer's batcher once. With nothing pending the
/// batcher reports that no batch was due, which is a success.
pub fn process_batch() -> (r: Result<(), HVMError>)
    ensures
        r is Ok,
{
    let config = SequencerConfig {
        max_pending_transactions: 5,
        max_pending_programs: 3,
        batch_interval_seconds: 1,
        max_batch_size: 3,
        max_programs_per_batch: 2,
    };
    let mut sequencer = crate::sequencer::Sequencer::new(
        crate::zk_rollup::State::new(), config);
    match sequencer.create_batch(true) {
        Ok(_) => Ok(()),
        Err(e) => Err(e),
    }
}

/// Assembles an engine under a known-good test configuration from the given
/// serialized key pair. Succeeds exactly when both keys deserialize: the
/// configuration's circuit shape always fits the machine.
pub fn verify_and_submit(proving_key: Vec<u8>, verifying_key: Vec<u8>)
    -> (r: Result<(), HVMError>)
    ensures
        r is Ok <==> (spec_vk_rows(verifying_key@) is Some && spec_pk_decodes(proving_key@)),
        r matches Err(e) ==> (e matches HVMError::Setup(_)),
{
    let config = Config {
        zk_params_path: String::from_str("test_params.json"),
        state_db_path: String::from_str("test_state.db"),
        prover_config: ProverConfig {
            proving_key_path: String::from_str("test_proving_key.bin"),
            max_batch_size: 10,
        },
        verifier_config: VerifierConfig {
            verification_key_path: String::from_str("test_verification_key.bin"),
        },
        sequencer_config: SequencerConfig {
            max_pending_transactions: 100,
            max_pending_programs: 50,
            batch_interval_seconds: 10,
            max_batch_size: 50,
            max_programs_per_batch: 25,
        },
    };
    match OffchainLabs::new(config, proving_key, verifying_key) {
        Ok(_) => Ok(()),
        Err(e) => Err(e),
    }
}

} // verus!
