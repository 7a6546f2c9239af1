//! The rollup-facing objects: the opaque proof wrapper, the replicated
//! state that only verified proofs may mutate, and the capability trait a
//! rollup backend implements.

use crate::error::HVMError;
use vstd::prelude::*;
use vstd::string::*;

verus! {

/// Serialized proof bytes: the uncompressed canonical serialization of a
/// Groth16 proof over BN254. Opaque to non-cryptographic code; it carries no
/// public inputs, which both prover and verifier re-derive from the batch.
#[derive(Debug)]
pub struct Proof {
    pub data: Vec<u8>,
}

impl View for Proof {
    type V = Seq<u8>;

    open spec fn view(&self) -> Seq<u8> {
        self.data@
    }
}

impl Clone for Proof {
    /// A clone carries the same bytes.
    fn clone(&self) -> (r: Proof)
        ensures
            r@ == self@,
    {
        Proof { data: self.data.clone() }
    }
}

impl Proof {
    /// Wraps serialized proof bytes unchanged.
    pub fn new(data: Vec<u8>) -> (r: Proof)
        ensures
            r.data@ == data@,
    {
        Proof { data }
    }

    /// The serialized bytes, unchanged.
    pub fn data(&self) -> (r: &[u8])
        ensures
            r@ == self.data@,
    {
        self.data.as_slice()
    }
}

/// The replicated account view, kept deliberately minimal: `balance`
/// accumulates the byte length of every applied proof payload; `nonce`
/// counts the applied proofs. Mutated exclusively by `apply_proof`.
#[derive(Debug, Clone, Copy, PartialEq, Eq, Structural)]
pub struct State {
    pub balance: u64,
    pub nonce: u64,
}

impl Default for State {
    /// The zero state.
    fn default() -> (r: State)
        ensures
            r.balance == 0,
            r.nonce == 0,
    {
        State { balance: 0, nonce: 0 }
    }
}

impl State {
    /// The zero state: nothing applied yet.
    pub fn new() -> (r: State)
        ensures
            r.balance == 0,
            r.nonce == 0,
    {
        State { balance: 0, nonce: 0 }
    }

    /// Credits the byte length of the proof payload and counts the
    /// application. Fails, leaving the state unchanged, exactly when either
    /// counter would overflow.
    pub fn apply_proof(&mut self, proof: &Proof) -> (r: Result<(), HVMError>)
        ensures
            r is Ok <==> (old(self).balance + proof.data@.len() <= u64::MAX
                && old(self).nonce < u64::MAX),
            r is Ok ==> final(self).balance == old(self).balance + proof.data@.len()
                && final(self).nonce == old(self).nonce + 1,
            r is Err ==> *final(self) == *old(self),
            r matches Err(e) ==> e matches HVMError::ZKRollup(_),
    {
        let len = proof.data.len() as u64;
        if self.balance > u64::MAX - len || self.nonce == u64::MAX {
            return Err(HVMError::ZKRollup(String::from_str("state counter overflow")));
        }
        self.balance = self.balance + len;
        self.nonce = self.nonce + 1;
        Ok(())
    }

    /// The accumulated balance.
    pub fn balance(&self) -> (r: u64)
        ensures
            r == self.balance,
    {
        self.balance
    }

    /// The count of applied proofs.
    pub fn nonce(&self) -> (r: u64)
        ensures
            r == self.nonce,
    {
        self.nonce
    }
}

/// Narrow capability pair a rollup backend offers, so the proving scheme can
/// be replaced without disturbing the sequencer. Implementors are supplied
/// by users of this library.
pub trait ZKRollup {
    fn generate_proof(&self, state: &State, transaction: &[u8]) -> Result<Proof, HVMError>;

    fn verify_proof(&self, proof: &Proof) -> Result<bool, HVMError>;

    fn apply_proof(&self, state: &mut State, proof: &Proof) -> Result<(), HVMError>;
}

/// State monotonicity: starting from the zero state, a run of states in
/// which each step increments the nonce by one — as every successful
/// `apply_proof` does — ends with the nonce equal to the number of applied
/// proofs.
pub proof fn lemma_state_monotonicity(states: Seq<State>)
    requires
        states.len() >= 1,
        states[0].nonce == 0,
        forall|i: int| 0 <= i < states.len() - 1
            ==> (#[trigger] states[i + 1]).nonce == states[i].nonce + 1,
    ensures
        states.last().nonce == states.len() - 1,
    decreases states.len(),
{
    if states.len() > 1 {
        lemma_state_monotonicity(states.drop_last());
        assert(states.drop_last().last() == states[states.len() - 2]);
        assert(states[states.len() - 1].nonce == states[states.len() - 2].nonce + 1);
    }
}

} // verus!
