//! The batching state machine: FIFO admission queues under flow-control
//! caps, a cadence- and size-gated batcher, and proof application that keeps
//! the pending and processed logs consistent under partial failure.

use crate::batch::Batch;
use crate::bend::BendProgram;
use crate::clock::unix_now_seconds;
use crate::config::SequencerConfig;
use crate::error::HVMError;
use crate::transaction::{tx_views, Transaction, TransactionView};
use crate::zk_rollup::{Proof, State};
use std::collections::VecDeque;
use vstd::prelude::*;
use vstd::string::*;

verus! {

/// Drains up to `cap` elements from the head of `q`, preserving order.
fn drain_head<T>(q: &mut VecDeque<T>, cap: usize) -> (r: Vec<T>)
    ensures
        r@ == old(q)@.take(spec_drain_count(old(q)@.len(), cap as nat) as int),
        final(q)@ == old(q)@.skip(spec_drain_count(old(q)@.len(), cap as nat) as int),
{
    let len = q.len();
    let n: usize = if len < cap { len } else { cap };
    let ghost q0 = q@;
    let mut out: Vec<T> = Vec::new();
    let mut i: usize = 0;
    while i < n
        invariant
            i <= n,
            n <= q0.len(),
            out@ =~= q0.take(i as int),
            q@ =~= q0.skip(i as int),
        decreases n - i,
    {
        proof {
            assert(q0.skip(i as int).len() > 0);
        }
        let x = q.pop_front().unwrap();
        proof {
            assert(q0.skip(i as int)[0] == q0[i as int]);
            assert(q0.take(i as int).push(q0[i as int]) =~= q0.take(i + 1));
            assert(q0.skip(i as int).drop_first() =~= q0.skip(i + 1));
        }
        out.push(x);
        i = i + 1;
    }
    out
}

/// How many elements a drain takes from a queue of length `len` under cap
/// `cap`: everything up to the cap.
pub open spec fn spec_drain_count(len: nat, cap: nat) -> nat {
    if len <= cap {
        len
    } else {
        cap
    }
}

/// The sequencer. It exclusively owns the pending queues, the processed
/// logs and the replicated state. The two ghost logs record every admitted
/// and every sealed transaction in order, so the FIFO discipline is an
/// invariant rather than a hope.
pub struct Sequencer {
    state: State,
    pending_transactions: VecDeque<Transaction>,
    processed_transactions: Vec<Transaction>,
    pending_programs: VecDeque<BendProgram>,
    processed_programs: Vec<BendProgram>,
    config: SequencerConfig,
    last_batch_time: u64,
    next_batch_id: u64,
    admitted: Ghost<Seq<Transaction>>,
    sealed: Ghost<Seq<Transaction>>,
}

impl Sequencer {
    /// The queued transactions, head first.
    pub closed spec fn spec_pending(self) -> Seq<Transaction> {
        self.pending_transactions@
    }

    /// The queued programs, head first.
    pub closed spec fn spec_pending_programs(self) -> Seq<BendProgram> {
        self.pending_programs@
    }

    /// Views of the processed-transaction log, oldest first.
    pub closed spec fn spec_processed(self) -> Seq<TransactionView> {
        tx_views(self.processed_transactions@)
    }

    /// The processed-program log.
    pub closed spec fn spec_processed_programs(self) -> Seq<BendProgram> {
        self.processed_programs@
    }

    /// The replicated state.
    pub closed spec fn spec_state(self) -> State {
        self.state
    }

    /// The configured caps and cadence.
    pub closed spec fn spec_config(self) -> SequencerConfig {
        self.config
    }

    /// Seconds-since-epoch of the last successful emission (or of
    /// construction).
    pub closed spec fn spec_last_batch_time(self) -> u64 {
        self.last_batch_time
    }

    /// The id the next sealed batch will carry.
    pub closed spec fn spec_next_batch_id(self) -> u64 {
        self.next_batch_id
    }

    /// Every transaction ever admitted, in admission order.
    pub closed spec fn spec_admitted(self) -> Seq<Transaction> {
        self.admitted@
    }

    /// Every transaction ever sealed into a batch, in emission order.
    pub closed spec fn spec_sealed(self) -> Seq<Transaction> {
        self.sealed@
    }

    /// The FIFO discipline: what has been sealed, followed by what is still
    /// pending, is exactly what was admitted.
    pub closed spec fn wf(self) -> bool {
        self.sealed@ + self.pending_transactions@ == self.admitted@
    }

    /// True when the cadence gate is open at time `now`.
    pub closed spec fn cadence_met(self, now: u64) -> bool {
        now >= self.last_batch_time + self.config.batch_interval_seconds
    }

    /// A fresh sequencer around the given state, stamped with the given
    /// construction time.
    pub fn new_at(initial_state: State, config: SequencerConfig, now: u64) -> (r: Sequencer)
        ensures
            r.wf(),
            r.spec_state() == initial_state,
            r.spec_config() == config,
            r.spec_pending().len() == 0,
            r.spec_pending_programs().len() == 0,
            r.spec_processed().len() == 0,
            r.spec_processed_programs().len() == 0,
            r.spec_admitted().len() == 0,
            r.spec_sealed().len() == 0,
            r.spec_last_batch_time() == now,
            r.spec_next_batch_id() == 0,
    {
        let r = Sequencer {
            state: initial_state,
            pending_transactions: VecDeque::new(),
            processed_transactions: Vec::new(),
            pending_programs: VecDeque::new(),
            processed_programs: Vec::new(),
            config,
            last_batch_time: now,
            next_batch_id: 0,
            admitted: Ghost(Seq::empty()),
            sealed: Ghost(Seq::empty()),
        };
        proof {
            assert(r.sealed@ + r.pending_transactions@ =~= r.admitted@);
        }
        r
    }

    /// A fresh sequencer stamped with the current wall-clock time.
    pub fn new(initial_state: State, config: SequencerConfig) -> (r: Sequencer)
        ensures
            r.wf(),
            r.spec_state() == initial_state,
            r.spec_config() == config,
            r.spec_pending().len() == 0,
            r.spec_pending_programs().len() == 0,
            r.spec_processed().len() == 0,
            r.spec_processed_programs().len() == 0,
            r.spec_admitted().len() == 0,
            r.spec_sealed().len() == 0,
            r.spec_next_batch_id() == 0,
    {
        let now = unix_now_seconds();
        Sequencer::new_at(initial_state, config, now)
    }

    /// Admits a transaction at the tail of the pending queue, or reports
    /// the queue-full condition, changing nothing, exactly when the queue
    /// has reached its cap. No other validation happens at admission.
    pub fn process_transaction(&mut self, transaction: Transaction) -> (r: Result<(), HVMError>)
        requires
            old(self).wf(),
        ensures
            final(self).wf(),
            r is Ok <==> old(self).spec_pending().len() < old(self).spec_config().max_pending_transactions,
            r is Ok ==> final(self).spec_pending() == old(self).spec_pending().push(transaction)
                && final(self).spec_admitted() == old(self).spec_admitted().push(transaction),
            r is Err ==> *final(self) == *old(self),
            r matches Err(e) ==> e.is_queue_full(),
            final(self).spec_state() == old(self).spec_state(),
            final(self).spec_config() == old(self).spec_config(),
            final(self).spec_processed() == old(self).spec_processed(),
            final(self).spec_pending_programs() == old(self).spec_pending_programs(),
            final(self).spec_processed_programs() == old(self).spec_processed_programs(),
            final(self).spec_sealed() == old(self).spec_sealed(),
            final(self).spec_last_batch_time() == old(self).spec_last_batch_time(),
            final(self).spec_next_batch_id() == old(self).spec_next_batch_id(),
    {
        if self.pending_transactions.len() >= self.config.max_pending_transactions {
            return Err(HVMError::Sequencer(String::from_str("Max pending transactions reached")));
        }
        proof {
            assert(self.sealed@ + self.pending_transactions@.push(transaction)
                =~= (self.sealed@ + self.pending_transactions@).push(transaction));
        }
        self.admitted = Ghost(self.admitted@.push(transaction));
        self.pending_transactions.push_back(transaction);
        Ok(())
    }

    /// Admits a program at the tail of the pending-program queue, or
    /// reports the queue-full condition, changing nothing, exactly when that
    /// queue has reached its cap.
    pub fn submit_program(&mut self, program: BendProgram) -> (r: Result<(), HVMError>)
        requires
            old(self).wf(),
        ensures
            final(self).wf(),
            r is Ok <==> old(self).spec_pending_programs().len() < old(self).spec_config().max_pending_programs,
            r is Ok ==> final(self).spec_pending_programs() == old(self).spec_pending_programs().push(program),
            r is Err ==> *final(self) == *old(self),
            r matches Err(e) ==> e.is_queue_full(),
            final(self).spec_state() == old(self).spec_state(),
            final(self).spec_config() == old(self).spec_config(),
            final(self).spec_pending() == old(self).spec_pending(),
            final(self).spec_processed() == old(self).spec_processed(),
            final(self).spec_processed_programs() == old(self).spec_processed_programs(),
            final(self).spec_admitted() == old(self).spec_admitted(),
            final(self).spec_sealed() == old(self).spec_sealed(),
            final(self).spec_last_batch_time() == old(self).spec_last_batch_time(),
            final(self).spec_next_batch_id() == old(self).spec_next_batch_id(),
    {
        if self.pending_programs.len() >= self.config.max_pending_programs {
            return Err(HVMError::Sequencer(String::from_str("Max pending programs reached")));
        }
        self.pending_programs.push_back(program);
        Ok(())
    }

    /// Seals a batch as observed at time `now`. A batch is produced if and
    /// only if at least one transaction is pending, the configured batch
    /// size is positive — a batch is never empty, so a zero size admits no
    /// batch at all — and the call is forced or the cadence gate is open.
    /// It drains transactions and programs from the queue heads up to the
    /// configured sizes, preserving order, and resets the cadence clock.
    /// The only failure is exhaustion of the batch id space, which is never
    /// the queue-full error.
    pub fn create_batch_at(&mut self, force: bool, now: u64) -> (r: Result<Option<Batch>, HVMError>)
        requires
            old(self).wf(),
        ensures
            final(self).wf(),
            final(self).spec_state() == old(self).spec_state(),
            final(self).spec_config() == old(self).spec_config(),
            final(self).spec_processed() == old(self).spec_processed(),
            final(self).spec_processed_programs() == old(self).spec_processed_programs(),
            final(self).spec_admitted() == old(self).spec_admitted(),
            r matches Err(e) ==> (e matches HVMError::Sequencer(_) && !e.is_queue_full()),
            r is Err ==> *final(self) == *old(self),
            old(self).spec_pending().len() == 0 ==> (r matches Ok(None) && *final(self) == *old(self)),
            old(self).spec_config().max_batch_size == 0
                ==> (r matches Ok(None) && *final(self) == *old(self)),
            old(self).spec_pending().len() > 0 && old(self).spec_config().max_batch_size >= 1
                && !force && !old(self).cadence_met(now)
                ==> (r matches Ok(None) && *final(self) == *old(self)),
            old(self).spec_pending().len() > 0 && old(self).spec_config().max_batch_size >= 1
                && (force || old(self).cadence_met(now))
                && old(self).spec_next_batch_id() == u64::MAX
                ==> (r is Err && *final(self) == *old(self)),
            old(self).spec_pending().len() > 0 && old(self).spec_config().max_batch_size >= 1
                && (force || old(self).cadence_met(now))
                && old(self).spec_next_batch_id() < u64::MAX
                ==> (r matches Ok(Some(b)) && {
                    let tn = spec_drain_count(old(self).spec_pending().len(),
                        old(self).spec_config().max_batch_size as nat);
                    let pn = spec_drain_count(old(self).spec_pending_programs().len(),
                        old(self).spec_config().max_programs_per_batch as nat);
                    &&& b.spec_transactions() == old(self).spec_pending().take(tn as int)
                    &&& final(self).spec_pending() == old(self).spec_pending().skip(tn as int)
                    &&& b.spec_programs() == old(self).spec_pending_programs().take(pn as int)
                    &&& final(self).spec_pending_programs() == old(self).spec_pending_programs().skip(pn as int)
                    &&& b.spec_batch_id() == old(self).spec_next_batch_id()
                    &&& final(self).spec_next_batch_id() == old(self).spec_next_batch_id() + 1
                    &&& b.spec_timestamp() == now
                    &&& final(self).spec_last_batch_time() == now
                    &&& final(self).spec_sealed() == old(self).spec_sealed() + b.spec_transactions()
                    &&& b.spec_transactions().len() > 0
                }),
    {
        if self.pending_transactions.len() == 0 {
            return Ok(None);
        }
        if self.config.max_batch_size == 0 {
            return Ok(None);
        }
        if !force {
            let gate_open = now >= self.last_batch_time
                && now - self.last_batch_time >= self.config.batch_interval_seconds;
            if !gate_open {
                return Ok(None);
            }
        }
        if self.next_batch_id == u64::MAX {
            proof {
                reveal_strlit("batch id space exhausted");
                reveal_strlit("Max pending transactions reached");
                reveal_strlit("Max pending programs reached");
                assert("batch id space exhausted"@.len() == 24);
                assert("Max pending transactions reached"@.len() == 32);
                assert("Max pending programs reached"@.len() == 28);
            }
            return Err(HVMError::Sequencer(String::from_str("batch id space exhausted")));
        }

        let batch_transactions = drain_head(&mut self.pending_transactions, self.config.max_batch_size);
        let batch_programs = drain_head(&mut self.pending_programs, self.config.max_programs_per_batch);

        let batch_id = self.next_batch_id;
        self.next_batch_id = self.next_batch_id + 1;
        let ghost txs_taken = batch_transactions@;
        let batch = Batch::new(batch_transactions, batch_programs, now, batch_id);
        self.last_batch_time = now;
        proof {
            let pending0 = old(self).pending_transactions@;
            let tn = spec_drain_count(pending0.len(), self.config.max_batch_size as nat) as int;
            assert((self.sealed@ + pending0.take(tn)) + pending0.skip(tn)
                =~= self.sealed@ + pending0);
        }
        self.sealed = Ghost(self.sealed@ + txs_taken);
        Ok(Some(batch))
    }

    /// Seals a batch as observed at the current wall-clock time.
    pub fn create_batch(&mut self, force: bool) -> (r: Result<Option<Batch>, HVMError>)
        requires
            old(self).wf(),
        ensures
            final(self).wf(),
            final(self).spec_state() == old(self).spec_state(),
            final(self).spec_config() == old(self).spec_config(),
            final(self).spec_processed() == old(self).spec_processed(),
            final(self).spec_processed_programs() == old(self).spec_processed_programs(),
            final(self).spec_admitted() == old(self).spec_admitted(),
            r matches Err(e) ==> (e matches HVMError::Sequencer(_) && !e.is_queue_full()),
            r is Err ==> *final(self) == *old(self),
            old(self).spec_pending().len() == 0 ==> (r matches Ok(None) && *final(self) == *old(self)),
            old(self).spec_config().max_batch_size == 0
                ==> (r matches Ok(None) && *final(self) == *old(self)),
            r matches Ok(Some(b)) ==> {
                let tn = spec_drain_count(old(self).spec_pending().len(),
                    old(self).spec_config().max_batch_size as nat);
                let pn = spec_drain_count(old(self).spec_pending_programs().len(),
                    old(self).spec_config().max_programs_per_batch as nat);
                &&& b.spec_transactions() == old(self).spec_pending().take(tn as int)
                &&& final(self).spec_pending() == old(self).spec_pending().skip(tn as int)
                &&& b.spec_programs() == old(self).spec_pending_programs().take(pn as int)
                &&& final(self).spec_pending_programs() == old(self).spec_pending_programs().skip(pn as int)
                &&& b.spec_batch_id() == old(self).spec_next_batch_id()
                &&& final(self).spec_next_batch_id() == old(self).spec_next_batch_id() + 1
                &&& final(self).spec_sealed() == old(self).spec_sealed() + b.spec_transactions()
                &&& b.spec_transactions().len() > 0
            },
            force && old(self).spec_pending().len() > 0
                && old(self).spec_config().max_batch_size >= 1
                && old(self).spec_next_batch_id() < u64::MAX
                ==> r matches Ok(Some(_)),
            force && old(self).spec_pending().len() > 0
                && old(self).spec_config().max_batch_size >= 1
                && old(self).spec_next_batch_id() == u64::MAX
                ==> r is Err,
    {
        let now = unix_now_seconds();
        self.create_batch_at(force, now)
    }

    /// Applies a proof to the state and, only on success, moves every
    /// transaction of the batch to the processed log. On failure the whole
    /// sequencer is left unchanged and the error surfaces.
    pub fn apply_proof(&mut self, proof: Proof, batch: &Batch) -> (r: Result<(), HVMError>)
        requires
            old(self).wf(),
        ensures
            final(self).wf(),
            r is Ok <==> (old(self).spec_state().balance + proof@.len() <= u64::MAX
                && old(self).spec_state().nonce < u64::MAX),
            r is Ok ==> final(self).spec_state().balance == old(self).spec_state().balance + proof@.len()
                && final(self).spec_state().nonce == old(self).spec_state().nonce + 1
                && final(self).spec_processed()
                    == old(self).spec_processed() + tx_views(batch.spec_transactions()),
            r is Err ==> *final(self) == *old(self),
            r matches Err(e) ==> e matches HVMError::ZKRollup(_),
            final(self).spec_pending() == old(self).spec_pending(),
            final(self).spec_pending_programs() == old(self).spec_pending_programs(),
            final(self).spec_processed_programs() == old(self).spec_processed_programs(),
            final(self).spec_admitted() == old(self).spec_admitted(),
            final(self).spec_sealed() == old(self).spec_sealed(),
            final(self).spec_config() == old(self).spec_config(),
            final(self).spec_last_batch_time() == old(self).spec_last_batch_time(),
            final(self).spec_next_batch_id() == old(self).spec_next_batch_id(),
    {
        let result = self.state.apply_proof(&proof);
        if result.is_err() {
            return result;
        }
        let mut moved = clone_transactions(batch.transactions());
        proof {
            assert(tx_views(self.processed_transactions@ + moved@)
                =~= tx_views(self.processed_transactions@) + tx_views(batch.spec_transactions()));
        }
        self.processed_transactions.append(&mut moved);
        result
    }

    /// A copy of the replicated state.
    pub fn get_current_state(&self) -> (r: State)
        ensures
            r == self.spec_state(),
    {
        self.state.clone()
    }

    /// The number of pending transactions.
    pub fn pending_transactions_count(&self) -> (r: usize)
        ensures
            r == self.spec_pending().len(),
    {
        self.pending_transactions.len()
    }

    /// The number of pending programs.
    pub fn pending_programs_count(&self) -> (r: usize)
        ensures
            r == self.spec_pending_programs().len(),
    {
        self.pending_programs.len()
    }

    /// The number of processed transactions.
    pub fn processed_transactions_count(&self) -> (r: usize)
        ensures
            r == self.spec_processed().len(),
    {
        self.processed_transactions.len()
    }

    /// The number of processed programs.
    pub fn processed_programs_count(&self) -> (r: usize)
        ensures
            r == self.spec_processed_programs().len(),
    {
        self.processed_programs.len()
    }

    /// The pending transactions, head first.
    pub fn get_pending_transactions(&self) -> (r: &VecDeque<Transaction>)
        ensures
            r@ == self.spec_pending(),
    {
        &self.pending_transactions
    }

    /// The pending programs, head first.
    pub fn get_pending_programs(&self) -> (r: &VecDeque<BendProgram>)
        ensures
            r@ == self.spec_pending_programs(),
    {
        &self.pending_programs
    }

    /// The processed transactions, oldest first.
    pub fn get_processed_transactions(&self) -> (r: &Vec<Transaction>)
        ensures
            tx_views(r@) == self.spec_processed(),
    {
        &self.processed_transactions
    }

    /// The processed programs, oldest first.
    pub fn get_processed_programs(&self) -> (r: &Vec<BendProgram>)
        ensures
            r@ == self.spec_processed_programs(),
    {
        &self.processed_programs
    }
}

/// Copies a slice of transactions into a vector reading the same, element
/// by element.
fn clone_transactions(txs: &[Transaction]) -> (r: Vec<Transaction>)
    ensures
        tx_views(r@) == tx_views(txs@),
        r@.len() == txs@.len(),
{
    let n = txs.len();
    let mut out: Vec<Transaction> = Vec::new();
    let mut i: usize = 0;
    while i < n
        invariant
            i <= n,
            n == txs@.len(),
            out@.len() == i,
            tx_views(out@) =~= tx_views(txs@.take(i as int)),
        decreases n - i,
    {
        let tx = txs[i].clone();
        let ghost txv = tx@;
        let ghost out0 = out@;
        out.push(tx);
        proof {
            assert(tx_views(out@) =~= tx_views(out0).push(txv)) by {
                assert(forall|j: int| 0 <= j < out0.len()
                    ==> tx_views(out@)[j] == out0[j]@);
            }
            assert(tx_views(txs@.take(i + 1)) =~= tx_views(txs@.take(i as int)).push(txs@[i as int]@));
        }
        i = i + 1;
    }
    proof {
        assert(txs@.take(n as int) =~= txs@);
    }
    out
}

/// The FIFO discipline, stated as the test suite reads it: at every
/// reachable sequencer state, the concatenation of the transactions of all
/// emitted batches — the sealed log — is exactly the prefix of the
/// admission order, and what is still pending completes it.
pub proof fn lemma_fifo(s: Sequencer)
    requires
        s.wf(),
    ensures
        s.spec_sealed() + s.spec_pending() == s.spec_admitted(),
        s.spec_sealed() == s.spec_admitted().take(s.spec_sealed().len() as int),
{
    assert((s.spec_sealed() + s.spec_pending()).take(s.spec_sealed().len() as int)
        =~= s.spec_sealed());
}

/// The cadence gate stays closed for a full interval after each emission:
/// an unforced call that comes too early receives nothing, so the batcher
/// cannot emit twice inside one interval.
pub proof fn lemma_cadence(s: Sequencer, t2: u64)
    requires
        t2 < s.spec_last_batch_time() + s.spec_config().batch_interval_seconds,
    ensures
        !s.cadence_met(t2),
{
}

/// Counterpart of `lemma_cadence`: once a whole interval lies between the
/// last emission time and `t2`, the cadence condition holds at `t2`, and
/// the batcher owes a batch whenever a transaction is pending, the batch
/// size is positive and the id space is not exhausted.
pub proof fn lemma_cadence_open(s: Sequencer, t2: u64)
    requires
        t2 >= s.spec_last_batch_time() + s.spec_config().batch_interval_seconds,
    ensures
        s.cadence_met(t2),
{
}

/// Batch ids are strictly increasing and never reused: every emission hands
/// out the current counter value and advances it, so an emission from any
/// later state — the counter never decreases — carries a strictly greater
/// id.
pub proof fn lemma_batch_id_monotonic(s0: Sequencer, s1: Sequencer, first: Batch, second: Batch)
    requires
        first.spec_batch_id() == s0.spec_next_batch_id(),
        s1.spec_next_batch_id() >= s0.spec_next_batch_id() + 1,
        second.spec_batch_id() == s1.spec_next_batch_id(),
    ensures
        second.spec_batch_id() > first.spec_batch_id(),
{
}

} // verus!
