//! Lowering of a batch into a rank-1 constraint system over the BN254
//! scalar field. Two constraint templates are used: per transaction slot,
//! `amount * nonce = product`; per program slot, the identity constraint
//! `prev * 1 = cur` over adjacent execution-trace elements. The geometry of
//! the system is a function of the configured capacities alone — occupied
//! slots and padding slots share one shape — so keys from the one-time
//! setup stay valid for every batch.

use crate::batch::Batch;
use crate::encoding::{int_to_le_bytes, le_int, pad_le_bytes};
use crate::error::HVMError;
use crate::snark::{fr_modulus, fr_mul_le};
use crate::transaction::Transaction;
use vstd::prelude::*;
use vstd::string::*;

verus! {

/// The circuit capacities that fix the key geometry: transaction slots,
/// program slots, and execution-trace elements per program slot.
#[derive(Debug, Clone, Copy, PartialEq, Eq, Structural)]
pub struct CircuitShape {
    pub tx_capacity: usize,
    pub program_capacity: usize,
    pub trace_capacity: usize,
}

impl CircuitShape {
    /// Instance variables: the constant one plus one public input per
    /// program slot.
    pub open spec fn spec_num_instance(self) -> int {
        1 + self.program_capacity
    }

    /// Witness variables: amount, nonce and product per transaction slot,
    /// and one variable per trace element.
    pub open spec fn spec_num_witness(self) -> int {
        3 * self.tx_capacity + self.program_capacity * self.trace_capacity
    }

    /// Constraints: one per transaction slot and one per adjacent trace
    /// pair.
    pub open spec fn spec_num_constraints(self) -> int {
        self.tx_capacity + self.program_capacity * (
            if self.trace_capacity > 0 { self.trace_capacity - 1 } else { 0int }
        )
    }

    /// The shape fits the machine.
    pub open spec fn valid(self) -> bool {
        &&& self.spec_num_instance() + self.spec_num_witness() <= usize::MAX
        &&& self.spec_num_constraints() <= usize::MAX
    }

    /// Builds a shape from the configured capacities, rejecting one whose
    /// variable or constraint count would not fit the machine.
    pub fn from_capacities(tx_capacity: usize, program_capacity: usize, trace_capacity: usize)
        -> (r: Result<CircuitShape, HVMError>)
        ensures
            r matches Ok(s) ==> s.tx_capacity == tx_capacity
                && s.program_capacity == program_capacity
                && s.trace_capacity == trace_capacity
                && s.valid(),
            r is Err ==> !(CircuitShape { tx_capacity, program_capacity, trace_capacity }).valid(),
            r matches Err(e) ==> (e matches HVMError::Setup(_)),
    {
        let s = CircuitShape { tx_capacity, program_capacity, trace_capacity };
        let t3 = match tx_capacity.checked_mul(3) {
            Some(v) => v,
            None => { return Err(shape_error()); },
        };
        let tr = match program_capacity.checked_mul(trace_capacity) {
            Some(v) => v,
            None => { return Err(shape_error()); },
        };
        let v1 = match t3.checked_add(tr) {
            Some(v) => v,
            None => { return Err(shape_error()); },
        };
        let v2 = match v1.checked_add(program_capacity) {
            Some(v) => v,
            None => { return Err(shape_error()); },
        };
        let _vars = match v2.checked_add(1) {
            Some(v) => v,
            None => { return Err(shape_error()); },
        };
        let pairs = if trace_capacity > 0 {
            match program_capacity.checked_mul(trace_capacity - 1) {
                Some(v) => v,
                None => { return Err(shape_error()); },
            }
        } else {
            0
        };
        let _cons = match tx_capacity.checked_add(pairs) {
            Some(v) => v,
            None => { return Err(shape_error()); },
        };
        Ok(s)
    }
}

/// A rank-1 constraint system with unit coefficients: constraint `i` reads
/// `assignment[a[i]] * assignment[b[i]] = assignment[c[i]]` over the scalar
/// field. The assignment lists the instance variables first — the constant
/// one, then the public inputs — followed by the witness variables, each as
/// 32 little-endian bytes.
pub struct R1cs {
    pub num_instance: usize,
    pub num_witness: usize,
    pub a: Vec<usize>,
    pub b: Vec<usize>,
    pub c: Vec<usize>,
    pub assignment: Vec<Vec<u8>>,
}

impl R1cs {
    /// Structural soundness: equally long rows, a full assignment of
    /// 32-byte values, and in-range variable indices.
    pub open spec fn wf(self) -> bool {
        &&& self.b@.len() == self.a@.len()
        &&& self.c@.len() == self.a@.len()
        &&& self.assignment@.len() == self.num_instance + self.num_witness
        &&& self.num_instance >= 1
        &&& forall|i: int| 0 <= i < self.a@.len()
            ==> self.a@[i] < self.assignment@.len()
                && self.b@[i] < self.assignment@.len()
                && self.c@[i] < self.assignment@.len()
        &&& forall|k: int| 0 <= k < self.assignment@.len()
            ==> (#[trigger] self.assignment@[k])@.len() == 32
    }
}

/// The public-input sequence a batch exposes: the value one for each
/// occupied program slot, zero for each padding slot.
pub open spec fn spec_public_inputs(occupied: int, capacity: int) -> Seq<u64> {
    Seq::new(capacity as nat, |j: int| if j < occupied { 1u64 } else { 0u64 })
}

/// Derives the public-input sequence of a batch for a circuit with
/// `program_capacity` program slots. Prover and verifier both call this —
/// and only this — so the two sides cannot diverge.
pub fn derive_public_inputs(batch: &Batch, program_capacity: usize) -> (r: Vec<u64>)
    ensures
        r@ == spec_public_inputs(
            if batch.spec_programs().len() <= program_capacity {
                batch.spec_programs().len() as int
            } else {
                program_capacity as int
            },
            program_capacity as int,
        ),
        r@.len() == program_capacity,
{
    let occupied = batch.programs().len();
    let mut out: Vec<u64> = Vec::new();
    let mut j: usize = 0;
    while j < program_capacity
        invariant
            j <= program_capacity,
            out@.len() == j,
            forall|k: int| 0 <= k < j
                ==> out@[k] == (if k < occupied { 1u64 } else { 0u64 }),
            occupied == batch.spec_programs().len(),
        decreases program_capacity - j,
    {
        if j < occupied {
            out.push(1);
        } else {
            out.push(0);
        }
        j = j + 1;
    }
    proof {
        let n = if batch.spec_programs().len() <= program_capacity {
            batch.spec_programs().len() as int
        } else {
            program_capacity as int
        };
        assert(out@ =~= spec_public_inputs(n, program_capacity as int));
    }
    out
}

/// Determinism of public inputs: the instance slots the prover commits to
/// in the circuit assignment carry, value for value, the public-input
/// sequence the verifier derives for the same batch — both are fixed by the
/// batch occupancy and the capacity alone, so the two sides cannot diverge.
pub proof fn lemma_prover_verifier_inputs_agree(cs: R1cs, batch: Batch, shape: CircuitShape)
    requires
        batch.spec_programs().len() <= shape.program_capacity,
        forall|j: int| 0 <= j < shape.program_capacity
            ==> le_int((#[trigger] cs.assignment@[1 + j])@)
                == (if j < batch.spec_programs().len() { 1nat } else { 0nat }),
    ensures
        forall|j: int| 0 <= j < shape.program_capacity
            ==> le_int((#[trigger] cs.assignment@[1 + j])@)
                == spec_public_inputs(
                    batch.spec_programs().len() as int,
                    shape.program_capacity as int,
                )[j],
{
}

/// 32 zero bytes.
fn zero32() -> (r: Vec<u8>)
    ensures
        r@.len() == 32,
        le_int(r@) == 0,
{
    int_to_le_bytes(0, 32)
}

/// The error reported for a shape that cannot fit the machine.
fn shape_error() -> (e: HVMError)
    ensures
        e matches HVMError::Setup(_),
{
    HVMError::Setup(String::from_str("circuit shape exceeds machine limits"))
}

/// A byte-for-byte copy.
fn copy_bytes(v: &Vec<u8>) -> (r: Vec<u8>)
    ensures
        r@ == v@,
{
    let n = v.len();
    let mut out: Vec<u8> = Vec::new();
    let mut k: usize = 0;
    while k < n
        invariant
            k <= n,
            n == v@.len(),
            out@ =~= v@.take(k as int),
        decreases n - k,
    {
        proof {
            assert(v@.take(k as int).push(v@[k as int]) =~= v@.take(k + 1));
        }
        out.push(v[k]);
        k = k + 1;
    }
    proof {
        assert(v@.take(n as int) =~= v@);
    }
    out
}

/// The amount of `tx` as 32 little-endian bytes, defined for amounts of at
/// most 32 bytes.
fn amount32(tx: &Transaction) -> (r: Result<Vec<u8>, HVMError>)
    ensures
        r matches Ok(v) ==> v@.len() == 32 && le_int(v@) == le_int(tx@.amount)
            && tx@.amount.len() <= 32,
        r is Err <==> tx@.amount.len() > 32,
        r matches Err(e) ==> e matches HVMError::Prover(_),
{
    if tx.amount.len() > 32 {
        return Err(HVMError::Prover(String::from_str("transaction amount is not field-embeddable")));
    }
    Ok(pad_le_bytes(&tx.amount, 32))
}

/// The circuit instance of a batch: fixed-geometry rows over the shape, and
/// the assignment drawn from the batch and the supplied execution traces.
/// Occupied transaction slots carry amount, nonce and their field product;
/// padding slots carry zeros. Each program slot carries its trace padded by
/// repeating the final element, so the identity constraints hold on padding
/// as well.
pub fn synthesize(
    batch: &Batch,
    traces: &Vec<Vec<Vec<u8>>>,
    shape: &CircuitShape,
) -> (r: Result<R1cs, HVMError>)
    requires
        shape.valid(),
    ensures
        r is Ok <==> (batch.spec_transactions().len() <= shape.tx_capacity
            && batch.spec_programs().len() <= shape.program_capacity
            && traces@.len() == batch.spec_programs().len()
            && (forall|j: int| 0 <= j < traces@.len()
                ==> (#[trigger] traces@[j])@.len() <= shape.trace_capacity)
            && (forall|j: int, k: int| 0 <= j < traces@.len() && 0 <= k < traces@[j]@.len()
                ==> (#[trigger] traces@[j]@[k])@.len() == 32)
            && (forall|i: int| 0 <= i < batch.spec_transactions().len()
                ==> (#[trigger] batch.spec_transactions()[i])@.amount.len() <= 32)),
        r matches Ok(cs) ==> {
            &&& cs.wf()
            &&& cs.num_instance == shape.spec_num_instance()
            &&& cs.num_witness == shape.spec_num_witness()
            &&& cs.a@.len() == shape.spec_num_constraints()
            &&& le_int(cs.assignment@[0]@) == 1
            &&& forall|j: int| 0 <= j < shape.program_capacity
                ==> le_int((#[trigger] cs.assignment@[1 + j])@)
                    == (if j < batch.spec_programs().len() { 1nat } else { 0nat })
            &&& forall|i: int| 0 <= i < batch.spec_transactions().len() ==> {
                let w0 = shape.spec_num_instance();
                let tx = #[trigger] batch.spec_transactions()[i];
                &&& le_int(cs.assignment@[w0 + 3 * i]@) == le_int(tx@.amount)
                &&& le_int(cs.assignment@[w0 + 3 * i + 1]@) == tx@.nonce
                &&& le_int(cs.assignment@[w0 + 3 * i + 2]@)
                    == (le_int(tx@.amount) * (tx@.nonce as nat)) % fr_modulus()
            }
            &&& (forall|j: int| 0 <= j < traces@.len() ==> (#[trigger] traces@[j])@.len() == 0)
                ==> (forall|x: int|
                    shape.spec_num_instance() + 3 * shape.tx_capacity <= x < cs.assignment@.len()
                        ==> le_int((#[trigger] cs.assignment@[x])@) == 0)
        },
        r matches Err(e) ==> (e matches HVMError::Prover(_)),
{
    let txs = batch.transactions();
    let programs = batch.programs();
    let ntx = txs.len();
    let nprogs = programs.len();
    if ntx > shape.tx_capacity {
        return Err(HVMError::Prover(String::from_str("batch exceeds transaction capacity")));
    }
    if nprogs > shape.program_capacity {
        return Err(HVMError::Prover(String::from_str("batch exceeds program capacity")));
    }
    if traces.len() != nprogs {
        return Err(HVMError::Prover(String::from_str("one execution trace per program is required")));
    }
    let mut j: usize = 0;
    while j < nprogs
        invariant
            j <= nprogs,
            nprogs == traces@.len(),
            forall|x: int| 0 <= x < j ==> (#[trigger] traces@[x])@.len() <= shape.trace_capacity,
            forall|x: int, k: int| 0 <= x < j && 0 <= k < traces@[x]@.len()
                ==> (#[trigger] traces@[x]@[k])@.len() == 32,
        decreases nprogs - j,
    {
        let t = &traces[j];
        if t.len() > shape.trace_capacity {
            return Err(HVMError::Prover(String::from_str("execution trace exceeds trace capacity")));
        }
        let mut k: usize = 0;
        while k < t.len()
            invariant
                k <= t@.len(),
                j < nprogs,
                nprogs == traces@.len(),
                t@ == traces@[j as int]@,
                forall|y: int| 0 <= y < k ==> (#[trigger] t@[y])@.len() == 32,
            decreases t@.len() - k,
        {
            if t[k].len() != 32 {
                return Err(HVMError::Prover(String::from_str("trace elements must be 32 bytes")));
            }
            k = k + 1;
        }
        j = j + 1;
    }
    let mut i: usize = 0;
    while i < ntx
        invariant
            i <= ntx,
            ntx == batch.spec_transactions().len(),
            txs@ == batch.spec_transactions(),
            forall|x: int| 0 <= x < i
                ==> (#[trigger] batch.spec_transactions()[x])@.amount.len() <= 32,
        decreases ntx - i,
    {
        if txs[i].amount.len() > 32 {
            return Err(HVMError::Prover(String::from_str("transaction amount is not field-embeddable")));
        }
        i = i + 1;
    }

    // The full assignment: the constant one, the public-input slots, the
    // transaction witnesses, the trace witnesses.
    let mut assignment: Vec<Vec<u8>> = Vec::new();
    assignment.push(int_to_le_bytes(1, 32));
    let mut j: usize = 0;
    while j < shape.program_capacity
        invariant
            j <= shape.program_capacity,
            assignment@.len() == 1 + j,
            le_int(assignment@[0]@) == 1,
            forall|x: int| 0 <= x < assignment@.len()
                ==> (#[trigger] assignment@[x])@.len() == 32,
            forall|x: int| 0 <= x < j
                ==> le_int((#[trigger] assignment@[1 + x])@)
                    == (if x < batch.spec_programs().len() { 1nat } else { 0nat }),
            nprogs == batch.spec_programs().len(),
        decreases shape.program_capacity - j,
    {
        if j < nprogs {
            assignment.push(int_to_le_bytes(1, 32));
        } else {
            assignment.push(zero32());
        }
        j = j + 1;
    }
    let ghost w0 = shape.spec_num_instance();
    let mut i: usize = 0;
    while i < shape.tx_capacity
        invariant
            i <= shape.tx_capacity,
            shape.valid(),
            assignment@.len() == w0 + 3 * i,
            w0 == shape.spec_num_instance(),
            le_int(assignment@[0]@) == 1,
            ntx == batch.spec_transactions().len(),
            ntx <= shape.tx_capacity,
            txs@ == batch.spec_transactions(),
            forall|x: int| 0 <= x < ntx
                ==> (#[trigger] batch.spec_transactions()[x])@.amount.len() <= 32,
            forall|x: int| 0 <= x < assignment@.len()
                ==> (#[trigger] assignment@[x])@.len() == 32,
            forall|x: int| 0 <= x < shape.program_capacity
                ==> le_int((#[trigger] assignment@[1 + x])@)
                    == (if x < batch.spec_programs().len() { 1nat } else { 0nat }),
            forall|x: int| 0 <= x < i ==> {
                let tx = #[trigger] batch.spec_transactions()[x];
                &&& le_int(assignment@[w0 + 3 * x]@) == (if x < ntx { le_int(tx@.amount) } else { 0nat })
                &&& le_int(assignment@[w0 + 3 * x + 1]@) == (if x < ntx { tx@.nonce as nat } else { 0nat })
                &&& le_int(assignment@[w0 + 3 * x + 2]@)
                    == (if x < ntx { (le_int(tx@.amount) * (tx@.nonce as nat)) % fr_modulus() } else { 0nat })
            },
        decreases shape.tx_capacity - i,
    {
        if i < ntx {
            let am = match amount32(&txs[i]) {
                Ok(v) => v,
                Err(e) => { return Err(e); },
            };
            let non = int_to_le_bytes(txs[i].nonce, 32);
            let prod = fr_mul_le(&am, &non);
            assignment.push(am);
            assignment.push(non);
            assignment.push(prod);
        } else {
            assignment.push(zero32());
            assignment.push(zero32());
            assignment.push(zero32());
        }
        i = i + 1;
    }
    let ghost wt = w0 + 3 * shape.tx_capacity;
    let mut j: usize = 0;
    while j < shape.program_capacity
        invariant
            j <= shape.program_capacity,
            shape.valid(),
            assignment@.len() == wt + j * shape.trace_capacity,
            wt == w0 + 3 * shape.tx_capacity,
            w0 == shape.spec_num_instance(),
            nprogs == traces@.len(),
            (forall|x: int| 0 <= x < traces@.len() ==> (#[trigger] traces@[x])@.len() == 0)
                ==> (forall|x: int| wt <= x < assignment@.len()
                    ==> le_int((#[trigger] assignment@[x])@) == 0),
            le_int(assignment@[0]@) == 1,
            nprogs == batch.spec_programs().len(),
            nprogs <= shape.program_capacity,
            ntx == batch.spec_transactions().len(),
            ntx <= shape.tx_capacity,
            txs@ == batch.spec_transactions(),
            forall|x: int| 0 <= x < shape.program_capacity
                ==> le_int((#[trigger] assignment@[1 + x])@)
                    == (if x < batch.spec_programs().len() { 1nat } else { 0nat }),
            forall|x: int| 0 <= x < ntx ==> {
                let tx = #[trigger] batch.spec_transactions()[x];
                &&& le_int(assignment@[w0 + 3 * x]@) == le_int(tx@.amount)
                &&& le_int(assignment@[w0 + 3 * x + 1]@) == tx@.nonce as nat
                &&& le_int(assignment@[w0 + 3 * x + 2]@)
                    == (le_int(tx@.amount) * (tx@.nonce as nat)) % fr_modulus()
            },
            forall|x: int| 0 <= x < traces@.len()
                ==> (#[trigger] traces@[x])@.len() <= shape.trace_capacity,
            forall|x: int, k: int| 0 <= x < traces@.len() && 0 <= k < traces@[x]@.len()
                ==> (#[trigger] traces@[x]@[k])@.len() == 32,
            forall|x: int| 0 <= x < assignment@.len()
                ==> (#[trigger] assignment@[x])@.len() == 32,
        decreases shape.program_capacity - j,
    {
        let mut k: usize = 0;
        while k < shape.trace_capacity
            invariant
                k <= shape.trace_capacity,
                shape.valid(),
                j < shape.program_capacity,
                assignment@.len() == wt + j * shape.trace_capacity + k,
                wt == w0 + 3 * shape.tx_capacity,
                w0 == shape.spec_num_instance(),
                nprogs == traces@.len(),
                (forall|x: int| 0 <= x < traces@.len() ==> (#[trigger] traces@[x])@.len() == 0)
                    ==> (forall|x: int| wt <= x < assignment@.len()
                        ==> le_int((#[trigger] assignment@[x])@) == 0),
            le_int(assignment@[0]@) == 1,
            nprogs == batch.spec_programs().len(),
            nprogs <= shape.program_capacity,
            ntx == batch.spec_transactions().len(),
            ntx <= shape.tx_capacity,
            txs@ == batch.spec_transactions(),
            forall|x: int| 0 <= x < shape.program_capacity
                ==> le_int((#[trigger] assignment@[1 + x])@)
                    == (if x < batch.spec_programs().len() { 1nat } else { 0nat }),
            forall|x: int| 0 <= x < ntx ==> {
                let tx = #[trigger] batch.spec_transactions()[x];
                &&& le_int(assignment@[w0 + 3 * x]@) == le_int(tx@.amount)
                &&& le_int(assignment@[w0 + 3 * x + 1]@) == tx@.nonce as nat
                &&& le_int(assignment@[w0 + 3 * x + 2]@)
                    == (le_int(tx@.amount) * (tx@.nonce as nat)) % fr_modulus()
            },
                forall|x: int| 0 <= x < traces@.len()
                    ==> (#[trigger] traces@[x])@.len() <= shape.trace_capacity,
                forall|x: int, y: int| 0 <= x < traces@.len() && 0 <= y < traces@[x]@.len()
                    ==> (#[trigger] traces@[x]@[y])@.len() == 32,
                forall|x: int| 0 <= x < assignment@.len()
                    ==> (#[trigger] assignment@[x])@.len() == 32,
            decreases shape.trace_capacity - k,
        {
            if j < nprogs {
                let t = &traces[j];
                if k < t.len() {
                    assignment.push(copy_bytes(&t[k]));
                } else if t.len() > 0 {
                    assignment.push(copy_bytes(&t[t.len() - 1]));
                } else {
                    assignment.push(zero32());
                }
            } else {
                assignment.push(zero32());
            }
            proof {
                assert((j as int) * shape.trace_capacity + (k + 1)
                    <= shape.program_capacity * shape.trace_capacity) by (nonlinear_arith)
                    requires
                        0 <= j < shape.program_capacity,
                        0 <= k < shape.trace_capacity,
                ;
            }
            k = k + 1;
        }
        proof {
            assert((j as int) * shape.trace_capacity + shape.trace_capacity
                == (j + 1) * shape.trace_capacity) by (nonlinear_arith);
        }
        j = j + 1;
    }
    proof {
        assert((shape.program_capacity as int) * shape.trace_capacity
            == shape.program_capacity * shape.trace_capacity);
    }

    proof {
        assert((shape.program_capacity as int) * (shape.trace_capacity as int) >= 0)
            by (nonlinear_arith);
    }

    // The constraint rows: fixed by the shape alone.
    let mut ra: Vec<usize> = Vec::new();
    let mut rb: Vec<usize> = Vec::new();
    let mut rc: Vec<usize> = Vec::new();
    let w0x = 1 + shape.program_capacity;
    let mut i: usize = 0;
    while i < shape.tx_capacity
        invariant
            i <= shape.tx_capacity,
            shape.valid(),
            w0x == shape.spec_num_instance(),
            ra@.len() == i,
            rb@.len() == i,
            rc@.len() == i,
            assignment@.len() == shape.spec_num_instance() + shape.spec_num_witness(),
            forall|x: int| 0 <= x < i ==> #[trigger] ra@[x] == w0x + 3 * x
                && rb@[x] == w0x + 3 * x + 1 && rc@[x] == w0x + 3 * x + 2,
        decreases shape.tx_capacity - i,
    {
        ra.push(w0x + 3 * i);
        rb.push(w0x + 3 * i + 1);
        rc.push(w0x + 3 * i + 2);
        i = i + 1;
    }
    let wtx = w0x + 3 * shape.tx_capacity;
    let mut j: usize = 0;
    while j < shape.program_capacity
        invariant
            j <= shape.program_capacity,
            shape.valid(),
            w0x == shape.spec_num_instance(),
            wtx == w0x + 3 * shape.tx_capacity,
            ra@.len() == rb@.len(),
            rc@.len() == ra@.len(),
            ra@.len() == shape.tx_capacity + j * (
                if shape.trace_capacity > 0 { shape.trace_capacity - 1 } else { 0int }),
            assignment@.len() == shape.spec_num_instance() + shape.spec_num_witness(),
            forall|x: int| 0 <= x < ra@.len()
                ==> #[trigger] ra@[x] < assignment@.len()
                    && rb@[x] < assignment@.len() && rc@[x] < assignment@.len(),
        decreases shape.program_capacity - j,
    {
        if shape.trace_capacity > 0 {
            proof {
                assert((j as int) * shape.trace_capacity + shape.trace_capacity
                    <= (shape.program_capacity as int) * shape.trace_capacity) by (nonlinear_arith)
                    requires 0 <= (j as int) < shape.program_capacity, shape.trace_capacity >= 0,
                ;
            }
            let base = wtx + j * shape.trace_capacity;
            let mut k: usize = 0;
            while k < shape.trace_capacity - 1
                invariant
                    k <= shape.trace_capacity - 1,
                    shape.trace_capacity > 0,
                    shape.valid(),
                    j < shape.program_capacity,
                    base == wtx + j * shape.trace_capacity,
                    base + shape.trace_capacity <= assignment@.len(),
                    w0x == shape.spec_num_instance(),
                    wtx == w0x + 3 * shape.tx_capacity,
                    ra@.len() == rb@.len(),
                    rc@.len() == ra@.len(),
                    ra@.len() == shape.tx_capacity
                        + j * (shape.trace_capacity - 1) + k,
                    assignment@.len() == shape.spec_num_instance() + shape.spec_num_witness(),
                    forall|x: int| 0 <= x < ra@.len()
                        ==> #[trigger] ra@[x] < assignment@.len()
                            && rb@[x] < assignment@.len() && rc@[x] < assignment@.len(),
                decreases shape.trace_capacity - 1 - k,
            {
                ra.push(base + k);
                rb.push(0);
                rc.push(base + k + 1);
                k = k + 1;
            }
            proof {
                assert((j as int) * (shape.trace_capacity - 1) + (shape.trace_capacity - 1)
                    == (j + 1) * (shape.trace_capacity - 1)) by (nonlinear_arith);
            }
        }
        j = j + 1;
    }
    let cs = R1cs {
        num_instance: w0x,
        num_witness: assignment.len() - w0x,
        a: ra,
        b: rb,
        c: rc,
        assignment,
    };
    proof {
        assert(cs.wf());
    }
    Ok(cs)
}

} // verus!
