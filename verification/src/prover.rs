//! The prover: resolves the programs a batch references through its local
//! program cache, lowers the batch to the fixed-shape constraint system,
//! and runs Groth16 over it with fresh randomness.

use crate::batch::Batch;
use crate::bend::BendProgram;
use crate::circuit::{synthesize, CircuitShape, R1cs};
use crate::error::HVMError;
use crate::snark::{groth16_prove, pk_from_bytes, spec_pk_decodes, spec_proof_decodes, ProvingKeyBox};
use crate::storage::Storage;
use crate::zk_rollup::Proof;
use vstd::prelude::*;
use vstd::string::*;

verus! {

/// Resource cost of one program execution: wall-clock microseconds and the
/// growth of linear memory in bytes.
#[derive(Debug, Clone, Copy, PartialEq, Eq, Structural)]
pub struct ResourceUsage {
    pub cpu_cycles: u64,
    pub memory_usage: u64,
}

/// The prover. It owns the deserialized proving key, the circuit shape the
/// key was generated for, and a program cache keyed by program id.
pub struct ZKProver {
    pub proving_key: ProvingKeyBox,
    shape: CircuitShape,
    cache: Storage,
}

impl ZKProver {
    /// The circuit shape the proving key is bound to.
    pub closed spec fn spec_shape(self) -> CircuitShape {
        self.shape
    }

    /// The prover-local program cache.
    pub closed spec fn spec_cache(self) -> Storage {
        self.cache
    }

    /// The proving key, as the opaque deserialized object.
    pub closed spec fn spec_proving_key(self) -> ProvingKeyBox {
        self.proving_key
    }

    /// The program cache is consistent.
    pub closed spec fn wf(self) -> bool {
        &&& self.cache.wf()
        &&& self.shape.valid()
    }

    /// A prover around a serialized proving key bound to the given circuit
    /// shape, with an empty program cache. Fails exactly when the key bytes
    /// do not deserialize.
    pub fn new(proving_key: Vec<u8>, shape: CircuitShape) -> (r: Result<ZKProver, HVMError>)
        requires
            shape.valid(),
        ensures
            r is Ok <==> spec_pk_decodes(proving_key@),
            r matches Ok(p) ==> p.wf() && p.spec_shape() == shape,
            r matches Err(e) ==> (e matches HVMError::Setup(_)),
    {
        match pk_from_bytes(&proving_key) {
            Ok(key) => Ok(ZKProver { proving_key: key, shape, cache: Storage::new() }),
            Err(_) => Err(HVMError::Setup(String::from_str("proving key does not deserialize"))),
        }
    }

    /// The program-slot capacity of the circuit shape.
    pub fn shape_program_capacity(&self) -> (r: usize)
        ensures
            r == self.spec_shape().program_capacity,
    {
        self.shape.program_capacity
    }

    /// Deploys the programs a batch carries into the prover-local cache,
    /// keyed by their content-addressed ids: equal bytecode overwrites,
    /// anything else appends. Afterwards every id the batch deploys
    /// resolves, and every other id reads as before. Deployment is the one
    /// write to the prover; proof generation itself is read-only.
    pub fn deploy_programs(&mut self, batch: &Batch)
        requires
            old(self).wf(),
        ensures
            final(self).wf(),
            final(self).spec_shape() == old(self).spec_shape(),
            final(self).spec_proving_key() == old(self).spec_proving_key(),
            forall|j: int| 0 <= j < batch.spec_programs().len()
                ==> final(self).spec_cache().spec_program_at(
                    (#[trigger] batch.spec_programs()[j])@.id) is Some,
            forall|id: Seq<char>| !spec_deploys(batch.spec_programs(), id)
                ==> final(self).spec_cache().spec_program_at(id)
                    == old(self).spec_cache().spec_program_at(id),
    {
        let ghost cache0 = self.cache;
        let programs = batch.programs();
        let nprogs = programs.len();
        let mut j: usize = 0;
        while j < nprogs
            invariant
                j <= nprogs,
                nprogs == programs@.len(),
                programs@ == batch.spec_programs(),
                self.cache.wf(),
                self.shape == old(self).shape,
                self.proving_key == old(self).proving_key,
                self.shape.valid(),
                cache0 == old(self).spec_cache(),
                forall|x: int| 0 <= x < j
                    ==> self.cache.spec_program_at((#[trigger] programs@[x])@.id) is Some,
                forall|id: Seq<char>| !spec_deploys(programs@.take(j as int), id)
                    ==> self.cache.spec_program_at(id) == cache0.spec_program_at(id),
            decreases nprogs - j,
        {
            let p = programs[j].clone();
            let ghost pid = p@.id;
            let ghost cache_prev = self.cache;
            let stored = self.cache.store_program(p);
            proof {
                assert(stored is Ok);
                assert(pid == programs@[j as int]@.id);
                assert forall|x: int| 0 <= x < j + 1
                    implies self.cache.spec_program_at((#[trigger] programs@[x])@.id) is Some by {
                    if programs@[x]@.id != pid {
                        assert(cache_prev.spec_program_at(programs@[x]@.id) is Some);
                    }
                }
                assert forall|id: Seq<char>| !spec_deploys(programs@.take(j + 1), id)
                    implies self.cache.spec_program_at(id) == cache0.spec_program_at(id) by {
                    assert(programs@.take(j + 1)[j as int]@.id == pid);
                    assert(id != pid);
                    assert forall|x: int| 0 <= x < j
                        implies (#[trigger] programs@.take(j as int)[x])@.id != id by {
                        assert(programs@.take(j + 1)[x]@.id != id);
                    }
                    assert(!spec_deploys(programs@.take(j as int), id));
                }
            }
            j = j + 1;
        }
        proof {
            assert(programs@.take(nprogs as int) =~= programs@);
        }
    }

    /// Proves a batch without touching the prover: requires every
    /// transaction's program reference to resolve in the cache as it stands
    /// (the empty id is the designated null reference of a pure transfer;
    /// `deploy_programs` is the write path), lowers the batch into the
    /// fixed-shape constraint system with the traces supplied for its
    /// programs, and hands the system to Groth16. A proof, when one comes
    /// back, is 256 serialized bytes and deserializes; its content depends
    /// on the prover's randomness, so nothing more is promised of it.
    pub fn generate_proof_with_traces(&self, batch: &Batch, traces: &Vec<Vec<Vec<u8>>>)
        -> (r: Result<Proof, HVMError>)
        requires
            self.wf(),
        ensures
            r matches Ok(p) ==> p@.len() == 256 && spec_proof_decodes(p@),
            r matches Err(e) ==> (e matches HVMError::ProgramNotFound(_)
                || e matches HVMError::Prover(_)),
            (r matches Err(e) && e matches HVMError::ProgramNotFound(_))
                <==> (exists|i: int| 0 <= i < batch.spec_transactions().len()
                    && (#[trigger] batch.spec_transactions()[i])@.program_id.len() > 0
                    && self.spec_cache().spec_program_at(
                        batch.spec_transactions()[i]@.program_id) is None),
            r is Ok ==> (batch.spec_transactions().len() <= self.spec_shape().tx_capacity
                && batch.spec_programs().len() <= self.spec_shape().program_capacity
                && traces@.len() == batch.spec_programs().len()
                && (forall|j: int| 0 <= j < traces@.len()
                    ==> (#[trigger] traces@[j])@.len() <= self.spec_shape().trace_capacity)
                && (forall|i: int| 0 <= i < batch.spec_transactions().len()
                    ==> (#[trigger] batch.spec_transactions()[i])@.amount.len() <= 32)),
    {
        let txs = batch.transactions();
        let ntx = txs.len();
        let mut i: usize = 0;
        while i < ntx
            invariant
                i <= ntx,
                ntx == batch.spec_transactions().len(),
                txs@ == batch.spec_transactions(),
                self.wf(),
                self.cache.wf(),
                forall|x: int| 0 <= x < i ==> ((#[trigger] txs@[x])@.program_id.len() == 0
                    || self.spec_cache().spec_program_at(txs@[x]@.program_id) is Some),
            decreases ntx - i,
        {
            if txs[i].program_id.as_str().unicode_len() > 0 {
                let looked = self.cache.load_program(txs[i].program_id.as_str());
                if looked.is_err() {
                    proof {
                        assert(batch.spec_transactions()[i as int]@.program_id.len() > 0);
                        assert(self.spec_cache().spec_program_at(
                            batch.spec_transactions()[i as int]@.program_id) is None);
                    }
                    return Err(HVMError::ProgramNotFound(String::from_str("Program not found")));
                }
            }
            i = i + 1;
        }
        proof {
            assert forall|x: int| 0 <= x < batch.spec_transactions().len()
                implies !((#[trigger] batch.spec_transactions()[x])@.program_id.len() > 0
                    && self.spec_cache().spec_program_at(
                        batch.spec_transactions()[x]@.program_id) is None) by {
                assert(txs@[x]@.program_id.len() == 0
                    || self.spec_cache().spec_program_at(txs@[x]@.program_id) is Some);
            }
        }
        let cs: R1cs = match synthesize(batch, traces, &self.shape) {
            Ok(cs) => cs,
            Err(e) => { return Err(e); },
        };
        match groth16_prove(&self.proving_key, &cs) {
            Ok(bytes) => Ok(Proof::new(bytes)),
            Err(_) => Err(HVMError::Prover(String::from_str("Failed to generate proof"))),
        }
    }

    /// Proves a batch whose programs have not been run: every program slot
    /// carries an empty execution trace.
    pub fn generate_proof(&self, batch: &Batch) -> (r: Result<Proof, HVMError>)
        requires
            self.wf(),
        ensures
            r matches Ok(p) ==> p@.len() == 256 && spec_proof_decodes(p@),
            r matches Err(e) ==> (e matches HVMError::ProgramNotFound(_)
                || e matches HVMError::Prover(_)),
            (r matches Err(e) && e matches HVMError::ProgramNotFound(_))
                <==> (exists|i: int| 0 <= i < batch.spec_transactions().len()
                    && (#[trigger] batch.spec_transactions()[i])@.program_id.len() > 0
                    && self.spec_cache().spec_program_at(
                        batch.spec_transactions()[i]@.program_id) is None),
            r is Ok ==> (batch.spec_transactions().len() <= self.spec_shape().tx_capacity
                && batch.spec_programs().len() <= self.spec_shape().program_capacity
                && (forall|i: int| 0 <= i < batch.spec_transactions().len()
                    ==> (#[trigger] batch.spec_transactions()[i])@.amount.len() <= 32)),
    {
        let nprogs = batch.programs().len();
        let mut traces: Vec<Vec<Vec<u8>>> = Vec::new();
        let mut j: usize = 0;
        while j < nprogs
            invariant
                j <= nprogs,
                traces@.len() == j,
                forall|x: int| 0 <= x < j ==> (#[trigger] traces@[x])@.len() == 0,
            decreases nprogs - j,
        {
            traces.push(Vec::new());
            j = j + 1;
        }
        self.generate_proof_with_traces(batch, &traces)
    }
}

/// Whether some program in the sequence carries the id.
pub open spec fn spec_deploys(programs: Seq<BendProgram>, id: Seq<char>) -> bool {
    exists|j: int| 0 <= j < programs.len() && (#[trigger] programs[j])@.id == id
}

/// Builds a prover for a serialized proving key bound to the given shape.
pub fn create_zk_prover(proving_key: Vec<u8>, shape: CircuitShape)
    -> (r: Result<ZKProver, HVMError>)
    requires
        shape.valid(),
    ensures
        r is Ok <==> spec_pk_decodes(proving_key@),
        r matches Ok(p) ==> p.wf() && p.spec_shape() == shape,
{
    ZKProver::new(proving_key, shape)
}

} // verus!
