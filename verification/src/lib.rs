//! Core of an off-chain rollup engine: a sequencer that batches submitted
//! transactions at a controlled cadence, a circuit synthesizer that lowers a
//! batch into a rank-1 constraint system over the BN254 scalar field, a
//! Groth16 prover and verifier working on the uncompressed canonical proof
//! encoding, a replicated state mutated only by applied proofs, a
//! content-addressed program store, and a pre-paid billing ledger.
//!
//! The one-time trusted-setup ceremony runs in the embedding application —
//! it feeds arkworks a synthesizer that replays the constraint rows this
//! library derives — and hands the engine its serialized proving and
//! verifying keys.

use vstd::prelude::*;
use vstd::string::*;

pub mod batch;
pub mod bend;
pub mod billing;
pub mod circuit;
pub mod clock;
pub mod commands;
pub mod config;
pub mod encoding;
pub mod error;
pub mod hashing;
pub mod prover;
pub mod relay;
pub mod sequencer;
pub mod snark;
pub mod storage;
pub mod transaction;
pub mod zk_rollup;
pub mod zk_verifier;

pub use config::Config;

verus! {

use crate::bend::BendProgram;
use crate::circuit::{derive_public_inputs, spec_public_inputs, CircuitShape};
use crate::error::HVMError;
use crate::prover::ZKProver;
use crate::sequencer::{spec_drain_count, Sequencer};
use crate::snark::{spec_groth16_accepts, spec_proof_decodes};
use crate::transaction::{tx_views, Transaction};
use crate::zk_rollup::{Proof, State};
use crate::zk_verifier::ZKVerifier;
use std::collections::VecDeque;

/// Execution-trace elements per program slot in the fixed circuit shape.
pub const TRACE_CAPACITY: usize = 4;

/// The engine: prover, sequencer and verifier wired together around one
/// circuit shape.
pub struct OffchainLabs {
    prover: ZKProver,
    sequencer: Sequencer,
    verifier: ZKVerifier,
}

impl OffchainLabs {
    /// The sequencer component.
    pub closed spec fn spec_sequencer(self) -> Sequencer {
        self.sequencer
    }

    /// The verifying-key bytes the engine checks proofs against.
    pub closed spec fn spec_verifying_key(self) -> Seq<u8> {
        self.verifier.spec_verifying_key()
    }

    /// The circuit shape both keys are bound to.
    pub closed spec fn spec_shape(self) -> CircuitShape {
        self.prover.spec_shape()
    }

    /// All components are internally consistent, and the batch sizes the
    /// sequencer drains fit the circuit the keys were generated for.
    pub closed spec fn wf(self) -> bool {
        &&& self.prover.wf()
        &&& self.sequencer.wf()
        &&& self.verifier.wf()
        &&& self.sequencer.spec_config().max_batch_size == self.prover.spec_shape().tx_capacity
        &&& self.sequencer.spec_config().max_programs_per_batch
            == self.prover.spec_shape().program_capacity
        &&& self.prover.spec_shape().tx_capacity >= 1
        &&& self.prover.spec_shape().program_capacity >= 1
    }

    /// Assembles the engine from its configuration and the serialized keys
    /// the trusted-setup ceremony produced for this configuration's circuit
    /// shape. Fails exactly when that shape cannot fit the machine, when a
    /// configured batch capacity is zero, or when the verifying key does
    /// not deserialize: the engine must not serve with broken key material.
    pub fn new(config: Config, proving_key: Vec<u8>, verifying_key: Vec<u8>)
        -> (r: Result<OffchainLabs, HVMError>)
        ensures
            r matches Ok(engine) ==> {
                &&& engine.wf()
                &&& engine.spec_sequencer().spec_config() == config.sequencer_config
                &&& engine.spec_sequencer().spec_pending().len() == 0
                &&& engine.spec_sequencer().spec_processed().len() == 0
                &&& engine.spec_sequencer().spec_state() == (State { balance: 0, nonce: 0 })
                &&& engine.spec_verifying_key() == verifying_key@
            },
            r matches Err(e) ==> (e matches HVMError::Setup(_)),
            r is Ok <==> (config.sequencer_config.max_batch_size >= 1
                && config.sequencer_config.max_programs_per_batch >= 1
                && (CircuitShape {
                        tx_capacity: config.sequencer_config.max_batch_size,
                        program_capacity: config.sequencer_config.max_programs_per_batch,
                        trace_capacity: TRACE_CAPACITY,
                    }).valid()
                && crate::snark::spec_vk_rows(verifying_key@) is Some
                && crate::snark::spec_pk_decodes(proving_key@)),
    {
        if config.sequencer_config.max_batch_size == 0
            || config.sequencer_config.max_programs_per_batch == 0 {
            return Err(HVMError::Setup(String::from_str("batch capacities must be positive")));
        }
        let shape = match CircuitShape::from_capacities(
            config.sequencer_config.max_batch_size,
            config.sequencer_config.max_programs_per_batch,
            TRACE_CAPACITY,
        ) {
            Ok(s) => s,
            Err(_) => {
                return Err(HVMError::Setup(String::from_str("circuit shape exceeds machine limits")));
            },
        };
        let verifier = ZKVerifier::new(verifying_key);
        if !verifier.key_decodes() {
            return Err(HVMError::Setup(String::from_str("verifying key does not deserialize")));
        }
        let prover = match ZKProver::new(proving_key, shape) {
            Ok(p) => p,
            Err(e) => { return Err(e); },
        };
        let sequencer = Sequencer::new(State::default(), config.sequencer_config);
        Ok(OffchainLabs { prover, sequencer, verifier })
    }

    /// Admits a transaction, forces a batch, proves it, verifies the proof
    /// against the batch-derived public inputs, and — only when the proof
    /// verifies — applies it, returning the verification verdict and the
    /// proof. With a full pending queue the queue-full error surfaces and
    /// nothing changes.
    pub fn process_transaction_ex(&mut self, transaction: Transaction)
        -> (r: Result<(bool, Option<Proof>), HVMError>)
        requires
            old(self).wf(),
        ensures
            final(self).wf(),
            old(self).spec_sequencer().spec_pending().len()
                >= old(self).spec_sequencer().spec_config().max_pending_transactions
                ==> (r matches Err(e) && e.is_queue_full() && *final(self) == *old(self)),
            (r matches Err(e) && e.is_queue_full())
                ==> old(self).spec_sequencer().spec_pending().len()
                    >= old(self).spec_sequencer().spec_config().max_pending_transactions,
            r is Err ==> final(self).spec_sequencer().spec_state()
                    == old(self).spec_sequencer().spec_state()
                && final(self).spec_sequencer().spec_processed()
                    == old(self).spec_sequencer().spec_processed(),
            (r matches Err(e) && !(e matches HVMError::Sequencer(_))) ==> {
                let pend1 = old(self).spec_sequencer().spec_pending().push(transaction);
                let tn = spec_drain_count(pend1.len(),
                    old(self).spec_sequencer().spec_config().max_batch_size as nat);
                final(self).spec_sequencer().spec_pending() == pend1.skip(tn as int)
            },
            (r matches Err(e) && e matches HVMError::Sequencer(_) && !e.is_queue_full())
                ==> final(self).spec_sequencer().spec_pending()
                    == old(self).spec_sequencer().spec_pending().push(transaction),
            r matches Ok(outcome) ==> {
                let pend1 = old(self).spec_sequencer().spec_pending().push(transaction);
                let tn = spec_drain_count(pend1.len(),
                    old(self).spec_sequencer().spec_config().max_batch_size as nat);
                &&& final(self).spec_sequencer().spec_pending() == pend1.skip(tn as int)
                &&& (forall|i: int| 0 <= i < tn
                    ==> (#[trigger] pend1.take(tn as int)[i])@.amount.len() <= 32)
                &&& (outcome.1 matches Some(pf) ==> pf@.len() == 256)
                &&& outcome.1 is Some
                &&& (outcome.1 matches Some(pf) ==> spec_proof_decodes(pf@)
                    && outcome.0 == spec_groth16_accepts(
                        old(self).spec_verifying_key(),
                        pf@,
                        spec_public_inputs(
                            spec_drain_count(
                                old(self).spec_sequencer().spec_pending_programs().len(),
                                old(self).spec_sequencer().spec_config().max_programs_per_batch
                                    as nat) as int,
                            old(self).spec_shape().program_capacity as int)))
                &&& (outcome.0 ==> final(self).spec_sequencer().spec_state().nonce
                        == old(self).spec_sequencer().spec_state().nonce + 1
                    && final(self).spec_sequencer().spec_state().balance
                        == old(self).spec_sequencer().spec_state().balance + 256
                    && final(self).spec_sequencer().spec_processed()
                        == old(self).spec_sequencer().spec_processed()
                            + tx_views(pend1.take(tn as int)))
                &&& (!outcome.0 ==> final(self).spec_sequencer().spec_state()
                        == old(self).spec_sequencer().spec_state()
                    && final(self).spec_sequencer().spec_processed()
                        == old(self).spec_sequencer().spec_processed())
            },
    {
        self.process_admitted(transaction)
    }

    /// Admits a transaction and runs the batch pipeline, reporting only the
    /// verification verdict.
    pub fn process_transaction(&mut self, transaction: Transaction) -> (r: Result<bool, HVMError>)
        requires
            old(self).wf(),
        ensures
            final(self).wf(),
            old(self).spec_sequencer().spec_pending().len()
                >= old(self).spec_sequencer().spec_config().max_pending_transactions
                ==> (r matches Err(e) && e.is_queue_full() && *final(self) == *old(self)),
            (r matches Err(e) && e.is_queue_full())
                ==> old(self).spec_sequencer().spec_pending().len()
                    >= old(self).spec_sequencer().spec_config().max_pending_transactions,
            r is Err ==> final(self).spec_sequencer().spec_state()
                    == old(self).spec_sequencer().spec_state()
                && final(self).spec_sequencer().spec_processed()
                    == old(self).spec_sequencer().spec_processed(),
            (r matches Err(e) && !(e matches HVMError::Sequencer(_))) ==> {
                let pend1 = old(self).spec_sequencer().spec_pending().push(transaction);
                let tn = spec_drain_count(pend1.len(),
                    old(self).spec_sequencer().spec_config().max_batch_size as nat);
                final(self).spec_sequencer().spec_pending() == pend1.skip(tn as int)
            },
            (r matches Err(e) && e matches HVMError::Sequencer(_) && !e.is_queue_full())
                ==> final(self).spec_sequencer().spec_pending()
                    == old(self).spec_sequencer().spec_pending().push(transaction),
            r matches Ok(valid) ==> {
                let pend1 = old(self).spec_sequencer().spec_pending().push(transaction);
                let tn = spec_drain_count(pend1.len(),
                    old(self).spec_sequencer().spec_config().max_batch_size as nat);
                &&& final(self).spec_sequencer().spec_pending() == pend1.skip(tn as int)
                &&& (forall|i: int| 0 <= i < tn
                    ==> (#[trigger] pend1.take(tn as int)[i])@.amount.len() <= 32)
                &&& (exists|p: Seq<u8>| #[trigger] spec_proof_decodes(p) && p.len() == 256
                    && valid == spec_groth16_accepts(
                        old(self).spec_verifying_key(),
                        p,
                        spec_public_inputs(
                            spec_drain_count(
                                old(self).spec_sequencer().spec_pending_programs().len(),
                                old(self).spec_sequencer().spec_config().max_programs_per_batch
                                    as nat) as int,
                            old(self).spec_shape().program_capacity as int)))
                &&& (valid ==> final(self).spec_sequencer().spec_state().nonce
                        == old(self).spec_sequencer().spec_state().nonce + 1
                    && final(self).spec_sequencer().spec_state().balance
                        == old(self).spec_sequencer().spec_state().balance + 256
                    && final(self).spec_sequencer().spec_processed()
                        == old(self).spec_sequencer().spec_processed()
                            + tx_views(pend1.take(tn as int)))
                &&& (!valid ==> final(self).spec_sequencer().spec_state()
                        == old(self).spec_sequencer().spec_state()
                    && final(self).spec_sequencer().spec_processed()
                        == old(self).spec_sequencer().spec_processed())
            },
    {
        match self.process_admitted(transaction) {
            Ok((valid, _)) => Ok(valid),
            Err(e) => Err(e),
        }
    }

    /// The shared pipeline behind both processing entry points.
    fn process_admitted(&mut self, transaction: Transaction)
        -> (r: Result<(bool, Option<Proof>), HVMError>)
        requires
            old(self).wf(),
        ensures
            final(self).wf(),
            old(self).spec_sequencer().spec_pending().len()
                >= old(self).spec_sequencer().spec_config().max_pending_transactions
                ==> (r matches Err(e) && e.is_queue_full() && *final(self) == *old(self)),
            (r matches Err(e) && e.is_queue_full())
                ==> old(self).spec_sequencer().spec_pending().len()
                    >= old(self).spec_sequencer().spec_config().max_pending_transactions,
            r is Err ==> final(self).spec_sequencer().spec_state()
                    == old(self).spec_sequencer().spec_state()
                && final(self).spec_sequencer().spec_processed()
                    == old(self).spec_sequencer().spec_processed(),
            (r matches Err(e) && !(e matches HVMError::Sequencer(_))) ==> {
                let pend1 = old(self).spec_sequencer().spec_pending().push(transaction);
                let tn = spec_drain_count(pend1.len(),
                    old(self).spec_sequencer().spec_config().max_batch_size as nat);
                final(self).spec_sequencer().spec_pending() == pend1.skip(tn as int)
            },
            (r matches Err(e) && e matches HVMError::Sequencer(_) && !e.is_queue_full())
                ==> final(self).spec_sequencer().spec_pending()
                    == old(self).spec_sequencer().spec_pending().push(transaction),
            r matches Ok(outcome) ==> {
                let pend1 = old(self).spec_sequencer().spec_pending().push(transaction);
                let tn = spec_drain_count(pend1.len(),
                    old(self).spec_sequencer().spec_config().max_batch_size as nat);
                &&& final(self).spec_sequencer().spec_pending() == pend1.skip(tn as int)
                &&& (forall|i: int| 0 <= i < tn
                    ==> (#[trigger] pend1.take(tn as int)[i])@.amount.len() <= 32)
                &&& (outcome.1 matches Some(pf) ==> pf@.len() == 256)
                &&& outcome.1 is Some
                &&& (outcome.1 matches Some(pf) ==> spec_proof_decodes(pf@)
                    && outcome.0 == spec_groth16_accepts(
                        old(self).spec_verifying_key(),
                        pf@,
                        spec_public_inputs(
                            spec_drain_count(
                                old(self).spec_sequencer().spec_pending_programs().len(),
                                old(self).spec_sequencer().spec_config().max_programs_per_batch
                                    as nat) as int,
                            old(self).spec_shape().program_capacity as int)))
                &&& (outcome.0 ==> final(self).spec_sequencer().spec_state().nonce
                        == old(self).spec_sequencer().spec_state().nonce + 1
                    && final(self).spec_sequencer().spec_state().balance
                        == old(self).spec_sequencer().spec_state().balance + 256
                    && final(self).spec_sequencer().spec_processed()
                        == old(self).spec_sequencer().spec_processed()
                            + tx_views(pend1.take(tn as int)))
                &&& (!outcome.0 ==> final(self).spec_sequencer().spec_state()
                        == old(self).spec_sequencer().spec_state()
                    && final(self).spec_sequencer().spec_processed()
                        == old(self).spec_sequencer().spec_processed())
            },
    {
        match self.sequencer.process_transaction(transaction) {
            Ok(_) => {},
            Err(e) => { return Err(e); },
        }
        let maybe_batch = match self.sequencer.create_batch(true) {
            Ok(b) => b,
            Err(e) => { return Err(e); },
        };
        let batch = match maybe_batch {
            Some(b) => b,
            None => {
                proof {
                    assert(false);
                }
                return Err(HVMError::Sequencer(String::from_str("batch creation failed")));
            },
        };
        self.prover.deploy_programs(&batch);
        let proof_obj = match self.prover.generate_proof(&batch) {
            Ok(p) => p,
            Err(e) => { return Err(e); },
        };
        let capacity = self.prover.shape_program_capacity();
        let inputs = derive_public_inputs(&batch, capacity);
        let valid = match self.verifier.verify_proof(&proof_obj, &inputs) {
            Ok(v) => v,
            Err(e) => { return Err(e); },
        };
        if valid {
            match self.sequencer.apply_proof(proof_obj.clone(), &batch) {
                Ok(_) => {},
                Err(e) => { return Err(e); },
            }
        }
        Ok((valid, Some(proof_obj)))
    }

    /// Submits a program to the sequencer's pending-program queue.
    pub fn submit_program(&mut self, program: BendProgram) -> (r: Result<(), HVMError>)
        requires
            old(self).wf(),
        ensures
            final(self).wf(),
            r is Ok <==> old(self).spec_sequencer().spec_pending_programs().len()
                < old(self).spec_sequencer().spec_config().max_pending_programs,
            r is Ok ==> final(self).spec_sequencer().spec_pending_programs()
                == old(self).spec_sequencer().spec_pending_programs().push(program),
            r is Err ==> *final(self) == *old(self),
    {
        self.sequencer.submit_program(program)
    }

    /// A copy of the replicated state.
    pub fn get_current_state(&self) -> (r: Result<State, HVMError>)
        ensures
            r matches Ok(s) && s == self.spec_sequencer().spec_state(),
    {
        Ok(self.sequencer.get_current_state())
    }

    /// The number of pending transactions.
    pub fn pending_transactions_count(&self) -> (r: usize)
        ensures
            r == self.spec_sequencer().spec_pending().len(),
    {
        self.sequencer.pending_transactions_count()
    }

    /// The number of processed transactions.
    pub fn processed_transactions_count(&self) -> (r: usize)
        ensures
            r == self.spec_sequencer().spec_processed().len(),
    {
        self.sequencer.processed_transactions_count()
    }

    /// The pending transactions, head first.
    pub fn get_pending_transactions(&self) -> (r: &VecDeque<Transaction>)
        ensures
            r@ == self.spec_sequencer().spec_pending(),
    {
        self.sequencer.get_pending_transactions()
    }

    /// The processed transactions, oldest first.
    pub fn get_processed_transactions(&self) -> (r: &Vec<Transaction>)
        ensures
            tx_views(r@) == self.spec_sequencer().spec_processed(),
    {
        self.sequencer.get_processed_transactions()
    }
}

} // verus!
