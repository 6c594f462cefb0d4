//! One execution request as the engine receives it, and the outcome that the
//! engine hands back.
use crate::types::{Address, H256, U256};
use vstd::prelude::*;

verus! {

/// The kind of an invocation. It decides which address supplies the code and
/// which the storage, and whether value may move.
#[derive(Clone, Copy, Debug, PartialEq, Eq)]
pub enum CallType {
    /// A creation: the code is the init code that comes with the request.
    Create,
    /// A message call into the code and storage of one contract.
    Call,
    /// The code of one contract run on the storage of another.
    DelegateCall,
    /// A message call that may not change state.
    StaticCall,
}

/// The value that an invocation carries.
#[derive(Clone, Copy, Debug, PartialEq, Eq)]
pub enum ActionValue {
    /// The amount moves from the sender to the receiver.
    Transfer(U256),
    /// The amount is shown to the code and does not move.
    Apparent(U256),
}

/// Whether the input of an invocation is part of its code or comes beside it.
#[derive(Clone, Copy, Debug, PartialEq, Eq)]
pub enum ParamsType {
    Embedded,
    Separate,
}

/// One execution request. It is made once, for one execution.
#[derive(Clone, Debug, PartialEq, Eq)]
pub struct ActionParams {
    /// The account whose code runs.
    pub code_address: Address,
    pub code_hash: Option<H256>,
    /// The account whose storage and identity the code runs under.
    pub address: Address,
    pub sender: Address,
    pub origin: Address,
    pub gas: U256,
    pub gas_price: U256,
    pub value: ActionValue,
    pub code: Option<Vec<u8>>,
    pub data: Option<Vec<u8>>,
    pub call_type: CallType,
    pub params_type: ParamsType,
}

/// What the engine reports when an execution ends normally.
#[derive(Clone, Debug, PartialEq, Eq)]
pub enum GasLeft {
    /// The execution ran to its end and returned nothing.
    Known(U256),
    /// The execution returned `data`. Where `apply_state` is false the
    /// execution reverted, and `data` is the reason.
    NeedsReturn { gas_left: U256, data: Vec<u8>, apply_state: bool },
}

/// The limits that the engine sizes its tables by.
#[derive(Clone, Copy, Debug, PartialEq, Eq)]
pub struct Schedule {
    /// The greatest depth of the call stack.
    pub max_depth: usize,
}

/// The greatest depth of the call stack under the Constantinople schedule.
pub const MAX_CALL_DEPTH: usize = 1024;

impl Schedule {
    /// The Constantinople schedule.
    pub fn new_constantinople() -> (r: Schedule)
        ensures
            r.max_depth == MAX_CALL_DEPTH,
    {
        Schedule { max_depth: MAX_CALL_DEPTH }
    }
}

/// What a nested message call reports to the code that made it.
#[derive(Clone, Debug, PartialEq, Eq)]
pub enum MessageCallResult {
    /// The call returned; the gas left and the returned bytes.
    Success(U256, Vec<u8>),
    /// The call reverted; the gas left and the reason bytes.
    Reverted(U256, Vec<u8>),
    /// The call could not be made or did not end with an outcome.
    Failed,
}

/// What a nested creation reports to the code that made it.
#[derive(Clone, Debug, PartialEq, Eq)]
pub enum ContractCreateResult {
    /// The contract was created; its address and the gas left.
    Created(Address, U256),
    /// The init code reverted; the gas left and the reason bytes.
    Reverted(U256, Vec<u8>),
    /// The creation could not be made or did not end with an outcome.
    Failed,
}

} // verus!
