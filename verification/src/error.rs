//! Error taxonomy of the engine. Every failure surfaces to the caller as one
//! of these categories; the sequencer never swallows an error.

use vstd::prelude::*;

verus! {

/// One error category per failure source. Each variant carries a free-form
/// diagnostic message.
#[derive(Debug, Clone)]
pub enum HVMError {
    /// Operating-system input/output failure.
    Io(String),
    /// Encoding or decoding of a value failed.
    Serialization(String),
    /// The prover could not produce a proof.
    Prover(String),
    /// The verifier could not process the proof or key material.
    Verifier(String),
    /// A sequencer admission or batching rule was violated (includes the
    /// queue-full condition).
    Sequencer(String),
    /// Applying a proof to the replicated state failed.
    ZKRollup(String),
    /// The configuration could not be read or parsed.
    Config(String),
    /// The trusted-setup ceremony failed.
    Setup(String),
    /// The shared program store could not be locked.
    StorageLock(String),
    /// A referenced program id is not present in the store or cache.
    ProgramNotFound(String),
    /// The sandboxed runtime failed to execute a program.
    Execution(String),
    /// Resource estimation for a program failed.
    Estimation(String),
    /// A billing operation would drive a balance negative.
    InsufficientBalance(String),
}

impl HVMError {
    /// True exactly for the admission failure that the sequencer reports
    /// when a pending queue is at its cap.
    pub open spec fn is_queue_full(self) -> bool {
        self matches HVMError::Sequencer(m)
            && (m@ == "Max pending transactions reached"@
                || m@ == "Max pending programs reached"@)
    }

    /// Diagnostic text carried by the error.
    pub fn message(&self) -> (r: &String)
        ensures
            r@ == self.spec_message(),
    {
        match self {
            HVMError::Io(m) => m,
            HVMError::Serialization(m) => m,
            HVMError::Prover(m) => m,
            HVMError::Verifier(m) => m,
            HVMError::Sequencer(m) => m,
            HVMError::ZKRollup(m) => m,
            HVMError::Config(m) => m,
            HVMError::Setup(m) => m,
            HVMError::StorageLock(m) => m,
            HVMError::ProgramNotFound(m) => m,
            HVMError::Execution(m) => m,
            HVMError::Estimation(m) => m,
            HVMError::InsufficientBalance(m) => m,
        }
    }

    /// The message as a sequence of characters.
    pub open spec fn spec_message(self) -> Seq<char> {
        match self {
            HVMError::Io(m) => m@,
            HVMError::Serialization(m) => m@,
            HVMError::Prover(m) => m@,
            HVMError::Verifier(m) => m@,
            HVMError::Sequencer(m) => m@,
            HVMError::ZKRollup(m) => m@,
            HVMError::Config(m) => m@,
            HVMError::Setup(m) => m@,
            HVMError::StorageLock(m) => m@,
            HVMError::ProgramNotFound(m) => m@,
            HVMError::Execution(m) => m@,
            HVMError::Estimation(m) => m@,
            HVMError::InsufficientBalance(m) => m@,
        }
    }
}

} // verus!
