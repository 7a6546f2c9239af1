//! The atomic unit of proving: an immutable, ordered group of transactions
//! (and of programs newly deployed alongside them), stamped with a
//! process-monotonic id and its creation time.

use crate::bend::BendProgram;
use crate::transaction::Transaction;
use vstd::prelude::*;

verus! {

/// A sealed batch. Immutable after creation; its id comes from the
/// sequencer's monotonic counter and its timestamp from the clock read at
/// sealing time.
#[derive(Debug, Clone)]
pub struct Batch {
    transactions: Vec<Transaction>,
    programs: Vec<BendProgram>,
    timestamp: u64,
    batch_id: u64,
}

impl Batch {
    /// Seals the given transactions and programs under the given id and
    /// timestamp, exactly as handed in. The id is caller-chosen: the
    /// sequencer is the id authority, drawing each from its monotonic
    /// counter, and ids of batches built elsewhere carry no uniqueness
    /// claim.
    pub fn new(transactions: Vec<Transaction>, programs: Vec<BendProgram>, timestamp: u64, batch_id: u64)
        -> (r: Batch)
        ensures
            r.spec_transactions() == transactions@,
            r.spec_programs() == programs@,
            r.spec_timestamp() == timestamp,
            r.spec_batch_id() == batch_id,
    {
        Batch { transactions, programs, timestamp, batch_id }
    }

    /// The sealed transactions, in admission order.
    pub fn transactions(&self) -> (r: &[Transaction])
        ensures
            r@ == self.spec_transactions(),
    {
        self.transactions.as_slice()
    }

    /// The programs deployed in this batch, in submission order.
    pub fn programs(&self) -> (r: &[BendProgram])
        ensures
            r@ == self.spec_programs(),
    {
        self.programs.as_slice()
    }

    /// Seconds since the epoch at creation.
    pub fn timestamp(&self) -> (r: u64)
        ensures
            r == self.spec_timestamp(),
    {
        self.timestamp
    }

    /// The process-monotonic batch id.
    pub fn batch_id(&self) -> (r: u64)
        ensures
            r == self.spec_batch_id(),
    {
        self.batch_id
    }

    /// The sealed transactions, for specifications.
    pub closed spec fn spec_transactions(self) -> Seq<Transaction> {
        self.transactions@
    }

    /// The sealed programs, for specifications.
    pub closed spec fn spec_programs(self) -> Seq<BendProgram> {
        self.programs@
    }

    /// The batch id, for specifications.
    pub closed spec fn spec_batch_id(self) -> u64 {
        self.batch_id
    }

    /// The timestamp, for specifications.
    pub closed spec fn spec_timestamp(self) -> u64 {
        self.timestamp
    }
}

} // verus!
