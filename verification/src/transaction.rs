//! The transaction record: an immutable statement of an intended transfer,
//! created by callers, consumed once by exactly one batch.

use vstd::prelude::*;

verus! {

/// The mathematical reading of a transaction: every field by value.
pub ghost struct TransactionView {
    pub sender: Seq<char>,
    pub recipient: Seq<char>,
    pub amount: Seq<u8>,
    pub nonce: u64,
    pub program_id: Seq<char>,
}

/// An intended transfer. `amount` is the little-endian byte encoding of a
/// non-negative, field-embeddable integer. `nonce` is monotonic per sender.
/// `program_id` names the program to execute under this transaction; the
/// empty string is the designated null identifier for pure transfers.
#[derive(Debug)]
pub struct Transaction {
    pub sender: String,
    pub recipient: String,
    pub amount: Vec<u8>,
    pub nonce: u64,
    pub program_id: String,
}

impl View for Transaction {
    type V = TransactionView;

    open spec fn view(&self) -> TransactionView {
        TransactionView {
            sender: self.sender@,
            recipient: self.recipient@,
            amount: self.amount@,
            nonce: self.nonce,
            program_id: self.program_id@,
        }
    }
}

impl DeepView for Transaction {
    type V = TransactionView;

    open spec fn deep_view(&self) -> TransactionView {
        self.view()
    }
}

impl Clone for Transaction {
    /// A clone reads the same in every field.
    fn clone(&self) -> (r: Transaction)
        ensures
            r@ == self@,
    {
        Transaction {
            sender: self.sender.clone(),
            recipient: self.recipient.clone(),
            amount: self.amount.clone(),
            nonce: self.nonce,
            program_id: self.program_id.clone(),
        }
    }
}

impl Transaction {
    /// Builds the record exactly from its parts.
    pub fn new(sender: String, recipient: String, amount: Vec<u8>, nonce: u64, program_id: String)
        -> (r: Transaction)
        ensures
            r@.sender == sender@,
            r@.recipient == recipient@,
            r@.amount == amount@,
            r@.nonce == nonce,
            r@.program_id == program_id@,
    {
        Transaction { sender, recipient, amount, nonce, program_id }
    }

    /// True when this transaction is a pure transfer and references no program.
    pub open spec fn is_pure_transfer(self) -> bool {
        self.program_id@.len() == 0
    }
}

/// The views of a sequence of transactions, element by element.
pub open spec fn tx_views(s: Seq<Transaction>) -> Seq<TransactionView> {
    s.map_values(|t: Transaction| t@)
}

} // verus!
