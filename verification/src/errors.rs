//! What can go wrong in an execution, and in the ledger below it.
use vstd::prelude::*;

verus! {

/// A failure reported by the backing ledger itself. The orchestration layer
/// passes it on and reads nothing from it.
#[derive(Clone, Debug, PartialEq, Eq)]
pub struct StateError {
    pub message: String,
}

/// Why an execution did not succeed.
#[derive(Clone, Debug, PartialEq, Eq)]
pub enum EvmError {
    /// The address of a deployment already holds code; the address in hex.
    DuplicateContract(String),
    /// A deployment reverted; the reason bytes in hex.
    DeployFail(String),
    /// A call reverted; the reason bytes in hex.
    Revert(String),
    /// The sender of a transfer does not hold the amount.
    InsufficientFunds,
    /// A transfer would take the receiver's balance to 2^256 or above.
    IntegerOverflow,
    /// A write was attempted under a static call.
    MutableCallInStaticContext,
    /// The call stack is as deep as the schedule allows.
    CallDepthExceeded,
    /// The engine ended without an outcome that can be classified.
    UnknownError,
    /// The backing ledger failed.
    State(StateError),
}

} // verus!
