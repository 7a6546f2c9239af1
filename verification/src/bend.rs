//! Deployable programs. A program's identifier is the lower-case hex
//! encoding of the SHA-256 digest of its bytecode, so two programs with
//! equal bytecode collide by construction.

use crate::encoding::{spec_to_hex, to_hex};
use crate::error::HVMError;
use crate::hashing::{sha256, sha256_of};
use vstd::prelude::*;
use vstd::string::*;

verus! {

/// The mathematical reading of program metadata.
pub ghost struct ProgramMetadataView {
    pub name: Seq<char>,
    pub version: Seq<char>,
    pub description: Seq<char>,
}

/// Descriptive program metadata; no semantic weight.
#[derive(Debug)]
pub struct ProgramMetadata {
    pub name: String,
    pub version: String,
    pub description: String,
}

impl View for ProgramMetadata {
    type V = ProgramMetadataView;

    open spec fn view(&self) -> ProgramMetadataView {
        ProgramMetadataView {
            name: self.name@,
            version: self.version@,
            description: self.description@,
        }
    }
}

impl Clone for ProgramMetadata {
    /// A clone reads the same in every field.
    fn clone(&self) -> (r: ProgramMetadata)
        ensures
            r@ == self@,
    {
        ProgramMetadata {
            name: self.name.clone(),
            version: self.version.clone(),
            description: self.description.clone(),
        }
    }
}

/// The mathematical reading of a program: every field by value.
pub ghost struct BendProgramView {
    pub id: Seq<char>,
    pub bytecode: Seq<u8>,
    pub metadata: ProgramMetadataView,
    pub author: Seq<char>,
    pub execution_cost: u64,
}

/// The content-addressed identifier of a bytecode sequence: lower-case hex
/// of its SHA-256 digest, 64 characters.
pub open spec fn spec_program_id(bytecode: Seq<u8>) -> Seq<char> {
    spec_to_hex(sha256_of(bytecode))
}

/// A deployable program. `bytecode` is opaque to the core and interpreted
/// as a WebAssembly module by the sandboxed runtime. `execution_cost` is the
/// caller-declared upper bound on its cost.
#[derive(Debug)]
pub struct BendProgram {
    pub id: String,
    pub bytecode: Vec<u8>,
    pub metadata: ProgramMetadata,
    pub author: String,
    pub execution_cost: u64,
}

impl View for BendProgram {
    type V = BendProgramView;

    open spec fn view(&self) -> BendProgramView {
        BendProgramView {
            id: self.id@,
            bytecode: self.bytecode@,
            metadata: self.metadata@,
            author: self.author@,
            execution_cost: self.execution_cost,
        }
    }
}

impl DeepView for BendProgram {
    type V = BendProgramView;

    open spec fn deep_view(&self) -> BendProgramView {
        self.view()
    }
}

impl Clone for BendProgram {
    /// A clone reads the same in every field.
    fn clone(&self) -> (r: BendProgram)
        ensures
            r@ == self@,
    {
        BendProgram {
            id: self.id.clone(),
            bytecode: self.bytecode.clone(),
            metadata: self.metadata.clone(),
            author: self.author.clone(),
            execution_cost: self.execution_cost,
        }
    }
}

impl BendProgram {
    /// Builds a program whose id is derived from the bytecode alone.
    pub fn new(bytecode: Vec<u8>, metadata: ProgramMetadata, author: String, execution_cost: u64)
        -> (r: BendProgram)
        ensures
            r@.id == spec_program_id(bytecode@),
            r@.bytecode == bytecode@,
            r@.metadata == metadata@,
            r@.author == author@,
            r@.execution_cost == execution_cost,
    {
        let digest = sha256(bytecode.as_slice());
        let id = to_hex(digest.as_slice());
        BendProgram { id, bytecode, metadata, author, execution_cost }
    }

    /// The content-addressed identifier.
    pub fn id(&self) -> (r: &str)
        ensures
            r@ == self.id@,
    {
        self.id.as_str()
    }

    /// The public inputs this program contributes to the circuit, one scalar
    /// per program, each with the fixed value one.
    pub fn get_public_inputs(&self) -> (r: Vec<u64>)
        ensures
            r@ == seq![1u64],
    {
        let mut v: Vec<u64> = Vec::new();
        v.push(1);
        proof {
            assert(v@ =~= seq![1u64]);
        }
        v
    }

    /// True when the stored id matches the bytecode, as `new` guarantees.
    pub open spec fn well_formed(self) -> bool {
        self.id@ == spec_program_id(self.bytecode@)
    }
}

/// Program ids are a function of the bytecode alone: equal bytecode gives
/// equal ids, whatever the metadata, author or declared cost.
pub proof fn lemma_program_id_deterministic(a: BendProgram, b: BendProgram)
    requires
        a.well_formed(),
        b.well_formed(),
        a.bytecode@ == b.bytecode@,
    ensures
        a.id@ == b.id@,
{
}

/// A demonstration circuit holding input and output scalars, each as a
/// canonical 32-byte little-endian value. It takes no part in the batch
/// pipeline.
#[derive(Debug)]
pub struct BendCircuit {
    pub inputs: Vec<Vec<u8>>,
    pub outputs: Vec<Vec<u8>>,
}

impl Default for BendCircuit {
    /// The empty circuit.
    fn default() -> (r: BendCircuit)
        ensures
            r.inputs@.len() == 0,
            r.outputs@.len() == 0,
    {
        BendCircuit { inputs: Vec::new(), outputs: Vec::new() }
    }
}

/// Splits a runtime's output bytes into 32-byte little-endian scalar
/// values. Fails, as an execution error, exactly when the length is not a
/// multiple of 32.
pub fn decode_field_reprs(bytes: &Vec<u8>) -> (r: Result<Vec<Vec<u8>>, HVMError>)
    ensures
        r is Ok <==> bytes@.len() % 32 == 0,
        r matches Ok(v) ==> {
            &&& v@.len() == bytes@.len() / 32
            &&& forall|i: int| 0 <= i < v@.len()
                ==> (#[trigger] v@[i])@ == bytes@.subrange(32 * i, 32 * i + 32)
        },
        r matches Err(e) ==> (e matches HVMError::Execution(_)),
{
    if bytes.len() % 32 != 0 {
        return Err(HVMError::Execution(String::from_str(
            "output length is not a multiple of the scalar width")));
    }
    let count = bytes.len() / 32;
    let mut out: Vec<Vec<u8>> = Vec::new();
    let mut i: usize = 0;
    while i < count
        invariant
            i <= count,
            count == bytes@.len() / 32,
            bytes@.len() % 32 == 0,
            bytes@.len() <= usize::MAX,
            out@.len() == i,
            forall|x: int| 0 <= x < i
                ==> (#[trigger] out@[x])@ == bytes@.subrange(32 * x, 32 * x + 32),
        decreases count - i,
    {
        proof {
            vstd::arithmetic::div_mod::lemma_fundamental_div_mod(bytes@.len() as int, 32);
            assert(32 * (count as int) == bytes@.len());
            assert(32 * (i as int) + 32 <= bytes@.len());
        }
        let mut chunk: Vec<u8> = Vec::new();
        let base = 32 * i;
        let mut k: usize = 0;
        while k < 32
            invariant
                k <= 32,
                base == 32 * i,
                i < count,
                count == bytes@.len() / 32,
                bytes@.len() % 32 == 0,
                chunk@ =~= bytes@.subrange(base as int, base + k),
            decreases 32 - k,
        {
            proof {
                assert(bytes@.subrange(base as int, base + k).push(bytes@[base + k])
                    =~= bytes@.subrange(base as int, base + k + 1));
            }
            chunk.push(bytes[base + k]);
            k = k + 1;
        }
        out.push(chunk);
        i = i + 1;
    }
    Ok(out)
}

} // verus!
