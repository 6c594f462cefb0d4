//! The call orchestrator: it builds the request for one execution, runs it
//! on buffered writes, classifies the outcome, and commits the writes to the
//! ledger or drops them.
use crate::errors::EvmError;
use crate::evm_state::{EvmState, Parent, StateStore, SubState};
use crate::frame::{
    ActionParams, ActionValue, CallType, GasLeft, ParamsType, Schedule, MAX_CALL_DEPTH,
};
use crate::hexfmt::{encode, hex_text};
use crate::ledger::Ledger;
use crate::near_ext::{Engine, ExtView, NearExt};
use crate::types::{copy_bytes, Address, U256};
use crate::utils::{contract_address, evm_contract_address, CreateContractAddress};
use crate::uint::checked_sub;
use vstd::prelude::*;

verus! {

/// The gas that every execution is given. It does not depend on the caller.
pub const PREPAID_GAS: u128 = 1_000_000_000_000;

/// What an outcome amounts to.
pub ghost enum Verdict {
    /// The execution succeeded: its writes are to be applied.
    Success { gas_left: nat, gas_used: nat, output: Seq<u8> },
    /// The execution reverted: none of its writes may be applied.
    Revert { gas_left: nat, gas_used: nat, reason: Seq<u8> },
    /// The engine failed, or reported more gas left than was prepaid.
    Unknown,
}

/// What the outcome `result` amounts to. The gas used is the prepaid gas
/// less the gas left.
pub open spec fn verdict(result: Option<GasLeft>) -> Verdict {
    match result {
        Some(GasLeft::Known(gas_left)) => if gas_left@ <= PREPAID_GAS {
            Verdict::Success {
                gas_left: gas_left@,
                gas_used: (PREPAID_GAS - gas_left@) as nat,
                output: Seq::empty(),
            }
        } else {
            Verdict::Unknown
        },
        Some(GasLeft::NeedsReturn { gas_left, data, apply_state }) => if gas_left@ > PREPAID_GAS {
            Verdict::Unknown
        } else if apply_state {
            Verdict::Success {
                gas_left: gas_left@,
                gas_used: (PREPAID_GAS - gas_left@) as nat,
                output: data@,
            }
        } else {
            Verdict::Revert {
                gas_left: gas_left@,
                gas_used: (PREPAID_GAS - gas_left@) as nat,
                reason: data@,
            }
        },
        None => Verdict::Unknown,
    }
}

/// A classified outcome.
#[derive(Clone, Debug, PartialEq, Eq)]
pub enum Settlement {
    Success { gas_left: U256, gas_used: U256, output: Vec<u8> },
    Revert { gas_left: U256, gas_used: U256, reason: Vec<u8> },
    Unknown,
}

impl View for Settlement {
    type V = Verdict;

    open spec fn view(&self) -> Verdict {
        match *self {
            Settlement::Success { gas_left, gas_used, output } => Verdict::Success {
                gas_left: gas_left@,
                gas_used: gas_used@,
                output: output@,
            },
            Settlement::Revert { gas_left, gas_used, reason } => Verdict::Revert {
                gas_left: gas_left@,
                gas_used: gas_used@,
                reason: reason@,
            },
            Settlement::Unknown => Verdict::Unknown,
        }
    }
}

/// What an entry point hands back: the result, and the gas that the
/// execution used. There is a gas figure exactly where the engine ran and
/// ended with an outcome that could be classified.
#[derive(Debug, PartialEq, Eq)]
pub struct Receipt<T> {
    pub gas_used: Option<U256>,
    pub result: Result<T, EvmError>,
}

/// Classifies the outcome of an execution and accounts for its gas.
pub fn classify(result: Option<GasLeft>) -> (r: Settlement)
    ensures
        r@ == verdict(result),
{
    let prepaid = U256::from_u128(PREPAID_GAS);
    match result {
        Some(GasLeft::Known(gas_left)) => match checked_sub(&prepaid, &gas_left) {
            Some(gas_used) => Settlement::Success { gas_left, gas_used, output: Vec::new() },
            None => Settlement::Unknown,
        },
        Some(GasLeft::NeedsReturn { gas_left, data, apply_state }) => match checked_sub(
            &prepaid,
            &gas_left,
        ) {
            Some(gas_used) => if apply_state {
                Settlement::Success { gas_left, gas_used, output: data }
            } else {
                Settlement::Revert { gas_left, gas_used, reason: data }
            },
            None => Settlement::Unknown,
        },
        None => Settlement::Unknown,
    }
}

/// Gas accounting: of every outcome that is classified, the gas used and the
/// gas left make up the prepaid gas, exactly.
pub proof fn lemma_gas_accounting(result: Option<GasLeft>)
    ensures
        match verdict(result) {
            Verdict::Success { gas_left, gas_used, output } => gas_used + gas_left == PREPAID_GAS,
            Verdict::Revert { gas_left, gas_used, reason } => gas_used + gas_left == PREPAID_GAS,
            Verdict::Unknown => true,
        },
{
}

/// The request for a message call.
pub fn call_params(
    origin: &Address,
    sender: &Address,
    value: Option<U256>,
    call_type: CallType,
    state_address: &Address,
    code_address: &Address,
    code: Vec<u8>,
    input: &[u8],
) -> (params: ActionParams)
    ensures
        params.code_address == *code_address,
        params.code_hash is None,
        params.address == *state_address,
        params.sender == *sender,
        params.origin == *origin,
        params.gas@ == PREPAID_GAS,
        params.gas_price@ == 1,
        match value {
            Some(amount) => params.value == ActionValue::Transfer(amount),
            None => params.value matches ActionValue::Apparent(shown) && shown@ == 0,
        },
        params.code matches Some(bytes) && bytes == code,
        params.data matches Some(bytes) && bytes@ == input@,
        params.call_type == call_type,
        params.params_type == ParamsType::Separate,
{
    ActionParams {
        code_address: *code_address,
        code_hash: None,
        address: *state_address,
        sender: *sender,
        origin: *origin,
        gas: U256::from_u128(PREPAID_GAS),
        gas_price: U256::from_u64(1),
        value: match value {
            Some(amount) => ActionValue::Transfer(amount),
            None => ActionValue::Apparent(U256::zero()),
        },
        code: Some(code),
        data: Some(copy_bytes(input)),
        call_type,
        params_type: ParamsType::Separate,
    }
}

/// One message call, as an entry point or a host binding is asked for it:
/// who calls, what moves, which account supplies the code and which the
/// storage, and whether the call may change anything.
pub ghost struct Invocation {
    pub origin: Address,
    pub sender: Address,
    /// The value that moves from the sender to `state_address`, if any.
    pub value: Option<U256>,
    /// The depth of the caller.
    pub call_stack_depth: nat,
    pub call_type: CallType,
    /// The account whose storage and identity the code runs under.
    pub state_address: Address,
    /// The account whose code runs.
    pub code_address: Address,
    pub input: Seq<u8>,
    pub is_static: bool,
}

/// The invocation with the given parts.
pub open spec fn invocation(
    origin: Address,
    sender: Address,
    value: Option<U256>,
    call_stack_depth: usize,
    call_type: CallType,
    state_address: Address,
    code_address: Address,
    input: Seq<u8>,
    is_static: bool,
) -> Invocation {
    Invocation {
        origin,
        sender,
        value,
        call_stack_depth: call_stack_depth as nat,
        call_type,
        state_address,
        code_address,
        input,
        is_static,
    }
}

/// What `call` asks for: the code of the contract on its own storage, with
/// the value moved where one is given, and the right to write.
pub open spec fn call_invocation(
    origin: Address,
    sender: Address,
    value: Option<U256>,
    call_stack_depth: usize,
    contract_address: Address,
    input: Seq<u8>,
) -> Invocation {
    invocation(
        origin,
        sender,
        value,
        call_stack_depth,
        CallType::Call,
        contract_address,
        contract_address,
        input,
        false,
    )
}

/// What `delegate_call` asks for: the code of `delegee` on the storage and
/// under the identity of `context`, with no value moved, and the right to
/// write.
pub open spec fn delegate_call_invocation(
    origin: Address,
    sender: Address,
    call_stack_depth: usize,
    context: Address,
    delegee: Address,
    input: Seq<u8>,
) -> Invocation {
    invocation(
        origin,
        sender,
        None,
        call_stack_depth,
        CallType::DelegateCall,
        context,
        delegee,
        input,
        false,
    )
}

/// What `static_call` asks for: the code of the contract on its own storage,
/// with no value moved and without the right to write.
pub open spec fn static_call_invocation(
    origin: Address,
    sender: Address,
    call_stack_depth: usize,
    contract_address: Address,
    input: Seq<u8>,
) -> Invocation {
    invocation(
        origin,
        sender,
        None,
        call_stack_depth,
        CallType::StaticCall,
        contract_address,
        contract_address,
        input,
        true,
    )
}

/// Why an invocation on the state `state` is refused before the engine runs,
/// if it is: the caller is at the greatest depth, the sender does not hold
/// the value, or the value would take the receiver's balance to 2^256.
pub open spec fn call_refusal(state: Ledger, inv: Invocation) -> Option<EvmError> {
    if inv.call_stack_depth >= MAX_CALL_DEPTH {
        Some(EvmError::CallDepthExceeded)
    } else {
        match inv.value {
            Some(amount) => if amount@ > state.balance_of(inv.sender) {
                Some(EvmError::InsufficientFunds)
            } else if !state.can_transfer(inv.sender, inv.state_address, amount@) {
                Some(EvmError::IntegerOverflow)
            } else {
                None
            },
            None => None,
        }
    }
}

/// Whether `params` and `ext` are the request and the host binding that an
/// invocation on the state `state` hands to the engine: the request names
/// the code of `code_address` as the state holds it, and the binding runs
/// under `state_address` one level deeper than the caller, over `state`,
/// with nothing written but the value moved.
pub open spec fn call_prepared(
    state: Ledger,
    inv: Invocation,
    params: ActionParams,
    ext: ExtView,
) -> bool {
    &&& params.code_address == inv.code_address
    &&& params.code_hash is None
    &&& params.address == inv.state_address
    &&& params.sender == inv.sender
    &&& params.origin == inv.origin
    &&& params.gas@ == PREPAID_GAS
    &&& params.gas_price@ == 1
    &&& match inv.value {
        Some(amount) => params.value == ActionValue::Transfer(amount),
        None => params.value matches ActionValue::Apparent(shown) && shown@ == 0,
    }
    &&& params.code matches Some(code) && code@ == match state.code_at(inv.code_address) {
        Some(stored) => stored,
        None => Seq::empty(),
    }
    &&& params.data matches Some(data) && data@ == inv.input
    &&& params.call_type == inv.call_type
    &&& params.params_type == ParamsType::Separate
    &&& ext == ExtView {
        context: inv.state_address,
        origin: inv.origin,
        msg_sender: inv.sender,
        depth: inv.call_stack_depth + 1,
        is_static: inv.is_static,
        gas_limit: PREPAID_GAS as nat,
        schedule: Schedule { max_depth: MAX_CALL_DEPTH },
        base: state,
        writes: match inv.value {
            Some(amount) => state.transfer_onto(
                Ledger::empty(),
                inv.sender,
                inv.state_address,
                amount@,
            ),
            None => Ledger::empty(),
        },
    }
}

/// Whether `result` and `writes` are what a run of the engine on an
/// invocation on the state `state` ends with: the engine was handed the
/// request and the binding of that invocation, reported `result`, and left
/// `writes` in the binding's buffer.
pub open spec fn call_run<E: Engine>(
    engine: &E,
    state: Ledger,
    inv: Invocation,
    result: Option<GasLeft>,
    writes: Ledger,
) -> bool {
    exists|params: ActionParams, before: ExtView, after: ExtView|
        call_prepared(state, inv, params, before) && #[trigger] engine.ran(
            params,
            before,
            after,
            result,
        ) && after.writes == writes
}

/// What settling a message call makes of an outcome: `r` is what the caller
/// gets, and `after` is the ledger, which was `before`. The gas used is the
/// prepaid gas less the gas that the outcome left, for a success and for a
/// revert alike. The writes are committed exactly where the execution
/// succeeded, the call is not static, and the caller asked for the commit;
/// only then can the ledger fail.
pub open spec fn call_settled(
    result: Option<GasLeft>,
    writes: Ledger,
    is_static: bool,
    should_commit: bool,
    before: Ledger,
    after: Ledger,
    r: Receipt<Vec<u8>>,
) -> bool {
    match verdict(result) {
        Verdict::Unknown => {
            &&& r.result == Err::<Vec<u8>, EvmError>(EvmError::UnknownError)
            &&& r.gas_used is None
            &&& after == before
        },
        Verdict::Revert { gas_left, gas_used, reason } => {
            &&& r.result matches Err(EvmError::Revert(text)) && text@ == hex_text(reason)
            &&& r.gas_used matches Some(used) && used@ == gas_used
            &&& after == before
        },
        Verdict::Success { gas_left, gas_used, output } => {
            &&& r.gas_used matches Some(used) && used@ == gas_used
            &&& if is_static || !should_commit {
                &&& r.result matches Ok(returned) && returned@ == output
                &&& after == before
            } else {
                match r.result {
                    Ok(returned) => returned@ == output && after == before.apply(writes),
                    Err(EvmError::State(_)) => true,
                    Err(_) => false,
                }
            }
        },
    }
}

/// What an entry point makes of an invocation on the ledger `before`, which
/// it leaves as `after`: the ledger itself fails; or the invocation is
/// refused, with the error that says why, and the ledger is as it was; or
/// the engine is run on it, and `r` and `after` are the settlement of what
/// that run ended with.
pub open spec fn call_done<E: Engine>(
    engine: &E,
    inv: Invocation,
    should_commit: bool,
    before: Ledger,
    after: Ledger,
    r: Receipt<Vec<u8>>,
) -> bool {
    ||| r.result matches Err(EvmError::State(_))
    ||| call_refusal(before, inv) matches Some(e) && r.result == Err::<Vec<u8>, EvmError>(e)
        && r.gas_used is None && after == before
    ||| call_refusal(before, inv) is None && exists|result: Option<GasLeft>, writes: Ledger|
        #[trigger] call_run(engine, before, inv, result, writes) && call_settled(
            result,
            writes,
            inv.is_static,
            should_commit,
            before,
            after,
            r,
        )
}

/// Gas accounting of a message call: whatever else the settlement decides,
/// the receipt of an outcome that left `gas_left`, a success or a revert,
/// reports exactly the prepaid gas less `gas_left` as used.
pub proof fn lemma_call_gas_accounting(
    result: Option<GasLeft>,
    writes: Ledger,
    is_static: bool,
    should_commit: bool,
    before: Ledger,
    after: Ledger,
    r: Receipt<Vec<u8>>,
)
    requires
        call_settled(result, writes, is_static, should_commit, before, after, r),
    ensures
        result matches Some(GasLeft::Known(gas_left)) ==> (gas_left@ <= PREPAID_GAS ==> (
        r.gas_used matches Some(used) && used@ == PREPAID_GAS - gas_left@)),
        result matches Some(GasLeft::NeedsReturn { gas_left, data, apply_state }) ==> (gas_left@
            <= PREPAID_GAS ==> (r.gas_used matches Some(used) && used@ == PREPAID_GAS
            - gas_left@)),
        verdict(result) is Unknown ==> r.gas_used is None,
{
}

/// Prepares a message call: checks the depth, reads the code at
/// `code_address`, builds the request, and opens a fresh buffer of writes
/// over `state`, in which a value that comes with the call is moved from the
/// sender to `state_address`. It hands back the request and the host binding
/// that the engine is to run it against, one level deeper than the caller.
pub fn prepare_call<'a, S: EvmState>(
    state: Parent<'a, S>,
    origin: &Address,
    sender: &Address,
    value: Option<U256>,
    call_stack_depth: usize,
    call_type: CallType,
    state_address: &Address,
    code_address: &Address,
    input: &[u8],
    is_static: bool,
) -> (r: Result<(ActionParams, NearExt<'a, S>), EvmError>)
    ensures
        call_stack_depth >= MAX_CALL_DEPTH ==> r matches Err(EvmError::CallDepthExceeded),
        ({
            let inv = invocation(
                *origin,
                *sender,
                value,
                call_stack_depth,
                call_type,
                *state_address,
                *code_address,
                input@,
                is_static,
            );
            match r {
                Ok((params, ext)) => {
                    &&& call_refusal(state.ledger(), inv) is None
                    &&& call_prepared(state.ledger(), inv, params, ext@)
                    &&& ext@.ledger() == match value {
                        Some(amount) => state.ledger().transfer(*sender, *state_address, amount@),
                        None => state.ledger(),
                    }
                },
                Err(EvmError::State(_)) => call_stack_depth < MAX_CALL_DEPTH,
                Err(e) => call_refusal(state.ledger(), inv) == Some(e),
            }
        }),
{
    if call_stack_depth >= MAX_CALL_DEPTH {
        return Err(EvmError::CallDepthExceeded);
    }
    let mut sub_state = SubState::new(sender, StateStore::new(), state);
    proof {
        state.ledger().lemma_apply_empty();
    }
    let code = match sub_state.code_at(code_address) {
        Ok(Some(code)) => code,
        Ok(None) => Vec::new(),
        Err(e) => {
            return Err(EvmError::State(e));
        },
    };
    let params = call_params(
        origin,
        sender,
        value,
        call_type,
        state_address,
        code_address,
        code,
        input,
    );
    if let Some(amount) = value {
        match sub_state.transfer_balance(sender, state_address, amount) {
            Ok(()) => {},
            Err(e) => {
                return Err(e);
            },
        }
    }
    let ext = NearExt::new(*state_address, *origin, sub_state, call_stack_depth + 1, is_static);
    Ok((params, ext))
}
/// Runs the code at `code_address` under the storage and identity of
/// `state_address`, on a fresh buffer of writes over `state`, and hands back
/// the engine's outcome with the buffer. `state` itself is only read.
///
/// The engine runs only where the call could be prepared: the depth allows
/// it, and the value that comes with the call could be moved. What is handed
/// back is then what that run of the engine ended with.
pub fn run_against_state<'a, S: EvmState, E: Engine>(
    state: Parent<'a, S>,
    engine: &E,
    origin: &Address,
    sender: &Address,
    value: Option<U256>,
    call_stack_depth: usize,
    call_type: CallType,
    state_address: &Address,
    code_address: &Address,
    input: &[u8],
    is_static: bool,
) -> (r: Result<(Option<GasLeft>, Option<StateStore>), EvmError>)
    ensures
        call_stack_depth >= MAX_CALL_DEPTH ==> r matches Err(EvmError::CallDepthExceeded),
        ({
            let inv = invocation(
                *origin,
                *sender,
                value,
                call_stack_depth,
                call_type,
                *state_address,
                *code_address,
                input@,
                is_static,
            );
            match r {
                Ok((result, state_updates)) => {
                    &&& call_refusal(state.ledger(), inv) is None
                    &&& state_updates matches Some(updates) && call_run(
                        engine,
                        state.ledger(),
                        inv,
                        result,
                        updates@,
                    )
                },
                Err(EvmError::State(_)) => call_stack_depth < MAX_CALL_DEPTH,
                Err(e) => call_refusal(state.ledger(), inv) == Some(e),
            }
        }),
{
    let prepared = prepare_call(
        state,
        origin,
        sender,
        value,
        call_stack_depth,
        call_type,
        state_address,
        code_address,
        input,
        is_static,
    );
    let (params, ext) = match prepared {
        Ok(pair) => pair,
        Err(e) => {
            return Err(e);
        },
    };
    let mut ext = ext;
    let result = engine.exec(params, &mut ext);
    Ok((result, Some(ext.into_store())))
}
/// Settles a message call: given the engine's outcome and the writes that
/// the execution buffered, it says what the caller gets, and commits the
/// writes to `state` exactly where the execution succeeded, the call is not
/// static, and the caller asked for the commit. In every other case `state`
/// is left as it was.
pub fn commit_if_success<S: EvmState>(
    state: &mut S,
    result: Option<GasLeft>,
    state_updates: &StateStore,
    is_static: bool,
    should_commit: bool,
) -> (r: Receipt<Vec<u8>>)
    ensures
        call_settled(
            result,
            state_updates@,
            is_static,
            should_commit,
            old(state).ledger(),
            final(state).ledger(),
            r,
        ),
        !(verdict(result) is Success) || is_static || !should_commit ==> *final(state) == *old(state),
{
    match classify(result) {
        Settlement::Unknown => Receipt { gas_used: None, result: Err(EvmError::UnknownError) },
        Settlement::Revert { gas_left, gas_used, reason } => Receipt {
            gas_used: Some(gas_used),
            result: Err(EvmError::Revert(encode(reason.as_slice()))),
        },
        Settlement::Success { gas_left, gas_used, output } => {
            if !is_static && should_commit {
                match state.commit_changes(state_updates) {
                    Ok(()) => {},
                    Err(e) => {
                        return Receipt { gas_used: Some(gas_used), result: Err(EvmError::State(e)) };
                    },
                }
            }
            Receipt { gas_used: Some(gas_used), result: Ok(output) }
        },
    }
}
/// Runs one message call and settles it: the call is refused before the
/// engine runs, or the engine runs on exactly the request and the binding of
/// this invocation, and what the caller gets and what becomes of `state` is
/// the settlement of what that run ended with.
///
/// Whatever the engine does, `state` changes only by a commit: it is
/// untouched where the call is static, where the caller did not ask for the
/// commit, and where the call fails for any reason but a failure of the
/// ledger itself.
pub fn run_and_commit_if_success<S: EvmState, E: Engine>(
    state: &mut S,
    engine: &E,
    origin: &Address,
    sender: &Address,
    value: Option<U256>,
    call_stack_depth: usize,
    call_type: CallType,
    state_address: &Address,
    code_address: &Address,
    input: &[u8],
    is_static: bool,
    should_commit: bool,
) -> (r: Receipt<Vec<u8>>)
    ensures
        is_static || !should_commit ==> *final(state) == *old(state),
        r.result matches Err(e) ==> e is State || *final(state) == *old(state),
        call_stack_depth >= MAX_CALL_DEPTH ==> r.result matches Err(EvmError::CallDepthExceeded),
        call_done(
            engine,
            invocation(
                *origin,
                *sender,
                value,
                call_stack_depth,
                call_type,
                *state_address,
                *code_address,
                input@,
                is_static,
            ),
            should_commit,
            old(state).ledger(),
            final(state).ledger(),
            r,
        ),
{
    let run = run_against_state(
        Parent::Backing(&*state),
        engine,
        origin,
        sender,
        value,
        call_stack_depth,
        call_type,
        state_address,
        code_address,
        input,
        is_static,
    );
    let (result, state_updates) = match run {
        Ok(pair) => pair,
        Err(e) => {
            return Receipt { gas_used: None, result: Err(e) };
        },
    };
    let state_updates = state_updates.unwrap();
    commit_if_success(state, result, &state_updates, is_static, should_commit)
}
/// The request for a creation: the init code comes with the request, it runs
/// under the new address, and the value moves to that address.
pub fn create_params(
    origin: &Address,
    sender: &Address,
    value: U256,
    address: &Address,
    code: &[u8],
) -> (params: ActionParams)
    ensures
        params.code_address == *address,
        params.code_hash is None,
        params.address == *address,
        params.sender == *sender,
        params.origin == *origin,
        params.gas@ == PREPAID_GAS,
        params.gas_price@ == 1,
        params.value == ActionValue::Transfer(value),
        params.code matches Some(bytes) && bytes@ == code@,
        params.data is None,
        params.call_type == CallType::Create,
        params.params_type == ParamsType::Embedded,
{
    ActionParams {
        code_address: *address,
        code_hash: None,
        address: *address,
        sender: *sender,
        origin: *origin,
        gas: U256::from_u128(PREPAID_GAS),
        gas_price: U256::from_u64(1),
        value: ActionValue::Transfer(value),
        code: Some(copy_bytes(code)),
        data: None,
        call_type: CallType::Create,
        params_type: ParamsType::Embedded,
    }
}

/// One creation, as a deployment or a host binding is asked for it.
pub ghost struct Creation {
    pub origin: Address,
    pub sender: Address,
    /// The value that moves from the sender to the new address.
    pub value: U256,
    /// The depth of the caller.
    pub call_stack_depth: nat,
    /// The address of the new contract.
    pub address: Address,
    /// The init code.
    pub code: Seq<u8>,
}

/// The creation with the given parts.
pub open spec fn creation(
    origin: Address,
    sender: Address,
    value: U256,
    call_stack_depth: usize,
    address: Address,
    code: Seq<u8>,
) -> Creation {
    Creation { origin, sender, value, call_stack_depth: call_stack_depth as nat, address, code }
}

/// Why a creation on the state `state` is refused before the engine runs, if
/// it is: the caller is at the greatest depth, the sender does not hold the
/// value, or the value would take the new address's balance to 2^256.
pub open spec fn create_refusal(state: Ledger, c: Creation) -> Option<EvmError> {
    if c.call_stack_depth >= MAX_CALL_DEPTH {
        Some(EvmError::CallDepthExceeded)
    } else if c.value@ > state.balance_of(c.sender) {
        Some(EvmError::InsufficientFunds)
    } else if !state.can_transfer(c.sender, c.address, c.value@) {
        Some(EvmError::IntegerOverflow)
    } else {
        None
    }
}

/// Whether `params` and `ext` are the request and the host binding that a
/// creation on the state `state` hands to the engine: the request embeds
/// the init code, and the binding runs under the new address one level
/// deeper than the caller, with the right to write, over `state`, with
/// nothing written but the value moved.
pub open spec fn create_prepared(
    state: Ledger,
    c: Creation,
    params: ActionParams,
    ext: ExtView,
) -> bool {
    &&& params.code_address == c.address
    &&& params.code_hash is None
    &&& params.address == c.address
    &&& params.sender == c.sender
    &&& params.origin == c.origin
    &&& params.gas@ == PREPAID_GAS
    &&& params.gas_price@ == 1
    &&& params.value == ActionValue::Transfer(c.value)
    &&& params.code matches Some(code) && code@ == c.code
    &&& params.data is None
    &&& params.call_type == CallType::Create
    &&& params.params_type == ParamsType::Embedded
    &&& ext == ExtView {
        context: c.address,
        origin: c.origin,
        msg_sender: c.sender,
        depth: c.call_stack_depth + 1,
        is_static: false,
        gas_limit: PREPAID_GAS as nat,
        schedule: Schedule { max_depth: MAX_CALL_DEPTH },
        base: state,
        writes: state.transfer_onto(Ledger::empty(), c.sender, c.address, c.value@),
    }
}

/// Whether `result` and `writes` are what a run of the engine on a creation
/// on the state `state` ends with: the engine was handed the request and the
/// binding of that creation, reported `result`, and left `writes` in the
/// binding's buffer.
pub open spec fn create_run<E: Engine>(
    engine: &E,
    state: Ledger,
    c: Creation,
    result: Option<GasLeft>,
    writes: Ledger,
) -> bool {
    exists|params: ActionParams, before: ExtView, after: ExtView|
        create_prepared(state, c, params, before) && #[trigger] engine.ran(
            params,
            before,
            after,
            result,
        ) && after.writes == writes
}

/// Prepares a creation: checks the depth, builds the request, and opens a
/// fresh buffer of writes over `state`, in which `value` is moved from the
/// sender to the new address. It hands back the request and the host binding
/// that the engine is to run it against, one level deeper than the caller.
pub fn prepare_create<'a, S: EvmState>(
    state: Parent<'a, S>,
    origin: &Address,
    sender: &Address,
    value: U256,
    call_stack_depth: usize,
    address: &Address,
    code: &[u8],
) -> (r: Result<(ActionParams, NearExt<'a, S>), EvmError>)
    ensures
        call_stack_depth >= MAX_CALL_DEPTH ==> r matches Err(EvmError::CallDepthExceeded),
        ({
            let c = creation(*origin, *sender, value, call_stack_depth, *address, code@);
            match r {
                Ok((params, ext)) => {
                    &&& create_refusal(state.ledger(), c) is None
                    &&& create_prepared(state.ledger(), c, params, ext@)
                    &&& ext@.ledger() == state.ledger().transfer(*sender, *address, value@)
                },
                Err(EvmError::State(_)) => call_stack_depth < MAX_CALL_DEPTH,
                Err(e) => create_refusal(state.ledger(), c) == Some(e),
            }
        }),
{
    if call_stack_depth >= MAX_CALL_DEPTH {
        return Err(EvmError::CallDepthExceeded);
    }
    let mut sub_state = SubState::new(sender, StateStore::new(), state);
    proof {
        state.ledger().lemma_apply_empty();
    }
    let params = create_params(origin, sender, value, address, code);
    match sub_state.transfer_balance(sender, address, value) {
        Ok(()) => {},
        Err(e) => {
            return Err(e);
        },
    }
    let ext = NearExt::new(*address, *origin, sub_state, call_stack_depth + 1, false);
    Ok((params, ext))
}
/// Runs the init code `code` under the new address `address`, on a fresh
/// buffer of writes over `state`, and hands back the engine's outcome with
/// the buffer. `state` itself is only read.
///
/// The engine runs only where the creation could be prepared: the depth
/// allows it, and `value` could be moved to the new address. What is handed
/// back is then what that run of the engine ended with.
pub fn _create<'a, S: EvmState, E: Engine>(
    state: Parent<'a, S>,
    engine: &E,
    origin: &Address,
    sender: &Address,
    value: U256,
    call_stack_depth: usize,
    address: &Address,
    code: &[u8],
) -> (r: Result<(Option<GasLeft>, Option<StateStore>), EvmError>)
    ensures
        call_stack_depth >= MAX_CALL_DEPTH ==> r matches Err(EvmError::CallDepthExceeded),
        ({
            let c = creation(*origin, *sender, value, call_stack_depth, *address, code@);
            match r {
                Ok((result, state_updates)) => {
                    &&& create_refusal(state.ledger(), c) is None
                    &&& state_updates matches Some(updates) && create_run(
                        engine,
                        state.ledger(),
                        c,
                        result,
                        updates@,
                    )
                },
                Err(EvmError::State(_)) => call_stack_depth < MAX_CALL_DEPTH,
                Err(e) => create_refusal(state.ledger(), c) == Some(e),
            }
        }),
{
    let prepared = prepare_create(state, origin, sender, value, call_stack_depth, address, code);
    let (params, ext) = match prepared {
        Ok(pair) => pair,
        Err(e) => {
            return Err(e);
        },
    };
    let mut ext = ext;
    let result = engine.exec(params, &mut ext);
    Ok((result, Some(ext.into_store())))
}
/// The nonce that goes into the address of a deployment.
pub open spec fn deployment_nonce(
    address_type: CreateContractAddress,
    ledger: Ledger,
    sender: Address,
) -> nat {
    if address_type is FromSenderAndNonce {
        ledger.nonce_of(sender)
    } else {
        0
    }
}

/// The ledger once the nonce for a deployment has been taken: where the
/// address comes from the sender's nonce, the sender has moved on to the
/// next one.
pub open spec fn after_nonce(
    address_type: CreateContractAddress,
    ledger: Ledger,
    sender: Address,
) -> Ledger {
    if address_type is FromSenderAndNonce {
        ledger.with_nonce(sender, ledger.nonce_of(sender) + 1)
    } else {
        ledger
    }
}

/// The address that a deployment goes to.
pub open spec fn deployment_target(
    address_type: CreateContractAddress,
    ledger: Ledger,
    sender: Address,
    code: Seq<u8>,
) -> Address {
    contract_address(address_type, sender, deployment_nonce(address_type, ledger, sender), code)
}

/// Whether a deployment is refused because its address already holds code.
pub open spec fn is_duplicate(
    address_type: CreateContractAddress,
    ledger: Ledger,
    sender: Address,
    recreate: bool,
    code: Seq<u8>,
) -> bool {
    !recreate && after_nonce(address_type, ledger, sender).code_at(
        deployment_target(address_type, ledger, sender, code),
    ) is Some
}

/// The ledger on which the init code of a deployment runs: the nonce is
/// taken, and with `recreate` the target is reinitialised.
pub open spec fn prepared(
    address_type: CreateContractAddress,
    ledger: Ledger,
    sender: Address,
    recreate: bool,
    code: Seq<u8>,
) -> Ledger {
    if recreate {
        after_nonce(address_type, ledger, sender).recreated(
            deployment_target(address_type, ledger, sender, code),
        )
    } else {
        after_nonce(address_type, ledger, sender)
    }
}

/// Derives the address of a deployment and guards it: without `recreate` an
/// address that already holds code is refused; with it the address is
/// reinitialised. The ledger is read only for the sender's nonce and for the
/// code at the address, so a deployment with `recreate` whose address does
/// not come from the nonce cannot fail here.
pub fn prepare_deployment<S: EvmState>(
    state: &mut S,
    sender: &Address,
    address_type: CreateContractAddress,
    recreate: bool,
    code: &[u8],
) -> (r: Result<Address, EvmError>)
    ensures
        match r {
            Ok(address) => {
                &&& address == deployment_target(address_type, old(state).ledger(), *sender, code@)
                &&& !is_duplicate(address_type, old(state).ledger(), *sender, recreate, code@)
                &&& final(state).ledger() == prepared(
                    address_type,
                    old(state).ledger(),
                    *sender,
                    recreate,
                    code@,
                )
            },
            Err(EvmError::DuplicateContract(text)) => {
                &&& is_duplicate(address_type, old(state).ledger(), *sender, recreate, code@)
                &&& text@ == hex_text(
                    deployment_target(address_type, old(state).ledger(), *sender, code@).bytes@,
                )
                &&& final(state).ledger() == after_nonce(address_type, old(state).ledger(), *sender)
            },
            Err(EvmError::State(_)) => true,
            Err(_) => false,
        },
        !(address_type is FromSenderAndNonce) && !recreate ==> *final(state) == *old(state),
        !(address_type is FromSenderAndNonce) && recreate ==> r is Ok,
{
    let mut nonce = U256::zero();
    if let CreateContractAddress::FromSenderAndNonce = address_type {
        nonce = match state.next_nonce(sender) {
            Ok(nonce) => nonce,
            Err(e) => {
                return Err(EvmError::State(e));
            },
        };
    }
    let (address, _) = evm_contract_address(address_type, sender, &nonce, code);
    if recreate {
        state.recreate(&address);
    } else {
        match state.code_at(&address) {
            Ok(Some(_)) => {
                return Err(EvmError::DuplicateContract(encode(address.bytes.as_slice())));
            },
            Ok(None) => {},
            Err(e) => {
                return Err(EvmError::State(e));
            },
        }
    }
    Ok(address)
}
/// What settling a deployment at `address` makes of an outcome: `r` is what
/// the caller gets, and `after` is the ledger, which was `before`. The gas
/// used is the prepaid gas less the gas that the outcome left, for a success
/// and for a revert alike. Where the init code succeeded its writes are
/// committed and what it returned is the code of `address`; only then can
/// the ledger fail.
pub open spec fn deployment_settled(
    result: Option<GasLeft>,
    writes: Ledger,
    address: Address,
    before: Ledger,
    after: Ledger,
    r: Receipt<Address>,
) -> bool {
    match verdict(result) {
        Verdict::Unknown => {
            &&& r.result == Err::<Address, EvmError>(EvmError::UnknownError)
            &&& r.gas_used is None
            &&& after == before
        },
        Verdict::Revert { gas_left, gas_used, reason } => {
            &&& r.result matches Err(EvmError::DeployFail(text)) && text@ == hex_text(reason)
            &&& r.gas_used matches Some(used) && used@ == gas_used
            &&& after == before
        },
        Verdict::Success { gas_left, gas_used, output } => {
            &&& r.gas_used matches Some(used) && used@ == gas_used
            &&& match r.result {
                Ok(deployed) => deployed == address && after == before.apply(writes).with_code(
                    address,
                    output,
                ),
                Err(EvmError::State(_)) => true,
                Err(_) => false,
            }
        },
    }
}

/// Gas accounting of a deployment: whatever else the settlement decides, the
/// receipt of an outcome that left `gas_left`, a success or a revert,
/// reports exactly the prepaid gas less `gas_left` as used.
pub proof fn lemma_deployment_gas_accounting(
    result: Option<GasLeft>,
    writes: Ledger,
    address: Address,
    before: Ledger,
    after: Ledger,
    r: Receipt<Address>,
)
    requires
        deployment_settled(result, writes, address, before, after, r),
    ensures
        result matches Some(GasLeft::Known(gas_left)) ==> (gas_left@ <= PREPAID_GAS ==> (
        r.gas_used matches Some(used) && used@ == PREPAID_GAS - gas_left@)),
        result matches Some(GasLeft::NeedsReturn { gas_left, data, apply_state }) ==> (gas_left@
            <= PREPAID_GAS ==> (r.gas_used matches Some(used) && used@ == PREPAID_GAS
            - gas_left@)),
        verdict(result) is Unknown ==> r.gas_used is None,
{
}

/// Settles a deployment: given the engine's outcome and the writes that the
/// init code buffered, it commits the writes and stores the returned bytes
/// as the code of `address` where the init code succeeded, and leaves `state`
/// as it was where it did not.
pub fn commit_deployment<S: EvmState>(
    state: &mut S,
    address: &Address,
    result: Option<GasLeft>,
    state_updates: &StateStore,
) -> (r: Receipt<Address>)
    ensures
        deployment_settled(
            result,
            state_updates@,
            *address,
            old(state).ledger(),
            final(state).ledger(),
            r,
        ),
        !(verdict(result) is Success) ==> *final(state) == *old(state),
{
    match classify(result) {
        Settlement::Unknown => Receipt { gas_used: None, result: Err(EvmError::UnknownError) },
        Settlement::Revert { gas_left, gas_used, reason } => Receipt {
            gas_used: Some(gas_used),
            result: Err(EvmError::DeployFail(encode(reason.as_slice()))),
        },
        Settlement::Success { gas_left, gas_used, output } => {
            match state.commit_changes(state_updates) {
                Ok(()) => {},
                Err(e) => {
                    return Receipt { gas_used: Some(gas_used), result: Err(EvmError::State(e)) };
                },
            }
            match state.set_code(address, output.as_slice()) {
                Ok(()) => {},
                Err(e) => {
                    return Receipt { gas_used: Some(gas_used), result: Err(EvmError::State(e)) };
                },
            }
            Receipt { gas_used: Some(gas_used), result: Ok(*address) }
        },
    }
}
/// What a deployment makes of the ledger `before`, which it leaves as
/// `after`: the ledger itself fails; or the address is refused as a
/// duplicate, and only the nonce is taken; or the creation is refused before
/// the engine runs, with the error that says why, and the ledger is as it
/// was prepared; or the engine is run on the creation, and `r` and `after`
/// are the settlement of what that run ended with.
pub open spec fn deployment_done<E: Engine>(
    engine: &E,
    origin: Address,
    sender: Address,
    value: U256,
    call_stack_depth: usize,
    address_type: CreateContractAddress,
    recreate: bool,
    code: Seq<u8>,
    before: Ledger,
    after: Ledger,
    r: Receipt<Address>,
) -> bool {
    let target = deployment_target(address_type, before, sender, code);
    let ready = prepared(address_type, before, sender, recreate, code);
    let c = creation(origin, sender, value, call_stack_depth, target, code);
    ||| r.result matches Err(EvmError::State(_))
    ||| {
        &&& is_duplicate(address_type, before, sender, recreate, code)
        &&& r.result matches Err(EvmError::DuplicateContract(text)) && text@ == hex_text(
            target.bytes@,
        )
        &&& r.gas_used is None
        &&& after == after_nonce(address_type, before, sender)
    }
    ||| {
        &&& !is_duplicate(address_type, before, sender, recreate, code)
        &&& create_refusal(ready, c) matches Some(e) && r.result == Err::<Address, EvmError>(e)
        &&& r.gas_used is None
        &&& after == ready
    }
    ||| {
        &&& !is_duplicate(address_type, before, sender, recreate, code)
        &&& create_refusal(ready, c) is None
        &&& exists|result: Option<GasLeft>, writes: Ledger|
            #[trigger] create_run(engine, ready, c, result, writes) && deployment_settled(
                result,
                writes,
                target,
                ready,
                after,
                r,
            )
    }
}

/// Deploys a contract: derives and guards its address, runs the init code
/// with `value` moved to the new address, and on success commits what the
/// init code wrote and stores what it returned as the contract's code. A
/// deployment always commits on success.
///
/// Whatever the engine does, a deployment that fails leaves of itself no
/// more than the taken nonce and, with `recreate`, the reinitialised
/// address: nothing that the init code wrote reaches `state`.
pub fn deploy_code<S: EvmState, E: Engine>(
    state: &mut S,
    engine: &E,
    origin: &Address,
    sender: &Address,
    value: U256,
    call_stack_depth: usize,
    address_type: CreateContractAddress,
    recreate: bool,
    code: &[u8],
) -> (r: Receipt<Address>)
    ensures
        r.result matches Err(e) && !(e is State) && !(address_type is FromSenderAndNonce)
            && !recreate
            ==> *final(state) == *old(state),
        recreate && !(address_type is FromSenderAndNonce) && call_stack_depth >= MAX_CALL_DEPTH
            ==> r.result matches Err(EvmError::CallDepthExceeded),
        deployment_done(
            engine,
            *origin,
            *sender,
            value,
            call_stack_depth,
            address_type,
            recreate,
            code@,
            old(state).ledger(),
            final(state).ledger(),
            r,
        ),
{
    let address = match prepare_deployment(state, sender, address_type, recreate, code) {
        Ok(address) => address,
        Err(e) => {
            return Receipt { gas_used: None, result: Err(e) };
        },
    };
    let run = _create(
        Parent::Backing(&*state),
        engine,
        origin,
        sender,
        value,
        call_stack_depth,
        &address,
        code,
    );
    let (result, state_updates) = match run {
        Ok(pair) => pair,
        Err(e) => {
            return Receipt { gas_used: None, result: Err(e) };
        },
    };
    let state_updates = state_updates.unwrap();
    commit_deployment(state, &address, result, &state_updates)
}
/// Calls the contract at `contract_address`: its code runs on its own
/// storage, `value` moves to it where one is given, and what it wrote is
/// committed where it succeeded and `should_commit` is set.
///
/// Whatever the engine does: without `should_commit` the ledger is left as
/// it was, also where the execution succeeded; and a call that fails leaves
/// the ledger as it was, unless the ledger itself failed.
pub fn call<S: EvmState, E: Engine>(
    state: &mut S,
    engine: &E,
    origin: &Address,
    sender: &Address,
    value: Option<U256>,
    call_stack_depth: usize,
    contract_address: &Address,
    input: &[u8],
    should_commit: bool,
) -> (r: Receipt<Vec<u8>>)
    ensures
        !should_commit ==> *final(state) == *old(state),
        r.result matches Err(e) ==> e is State || *final(state) == *old(state),
        call_stack_depth >= MAX_CALL_DEPTH ==> r.result matches Err(EvmError::CallDepthExceeded),
        call_done(
            engine,
            call_invocation(*origin, *sender, value, call_stack_depth, *contract_address, input@),
            should_commit,
            old(state).ledger(),
            final(state).ledger(),
            r,
        ),
{
    run_and_commit_if_success(
        state,
        engine,
        origin,
        sender,
        value,
        call_stack_depth,
        CallType::Call,
        contract_address,
        contract_address,
        input,
        false,
        should_commit,
    )
}
/// Runs the code of `delegee` on the storage and under the identity of
/// `context`. No value moves, and what the code wrote is committed where it
/// succeeded.
///
/// Whatever the engine does, a call that fails leaves the ledger as it was,
/// unless the ledger itself failed.
pub fn delegate_call<S: EvmState, E: Engine>(
    state: &mut S,
    engine: &E,
    origin: &Address,
    sender: &Address,
    call_stack_depth: usize,
    context: &Address,
    delegee: &Address,
    input: &[u8],
) -> (r: Receipt<Vec<u8>>)
    ensures
        r.result matches Err(e) ==> e is State || *final(state) == *old(state),
        call_stack_depth >= MAX_CALL_DEPTH ==> r.result matches Err(EvmError::CallDepthExceeded),
        call_done(
            engine,
            delegate_call_invocation(
                *origin,
                *sender,
                call_stack_depth,
                *context,
                *delegee,
                input@,
            ),
            true,
            old(state).ledger(),
            final(state).ledger(),
            r,
        ),
{
    run_and_commit_if_success(
        state,
        engine,
        origin,
        sender,
        None,
        call_stack_depth,
        CallType::DelegateCall,
        context,
        delegee,
        input,
        false,
        true,
    )
}
/// Calls the contract at `contract_address` without the right to change
/// anything: no value moves, every write that the code attempts is refused
/// by the host binding, and nothing is ever committed.
///
/// Whatever the engine does, the ledger is left as it was.
pub fn static_call<S: EvmState, E: Engine>(
    state: &mut S,
    engine: &E,
    origin: &Address,
    sender: &Address,
    call_stack_depth: usize,
    contract_address: &Address,
    input: &[u8],
) -> (r: Receipt<Vec<u8>>)
    ensures
        *final(state) == *old(state),
        call_stack_depth >= MAX_CALL_DEPTH ==> r.result matches Err(EvmError::CallDepthExceeded),
        call_done(
            engine,
            static_call_invocation(*origin, *sender, call_stack_depth, *contract_address, input@),
            false,
            old(state).ledger(),
            final(state).ledger(),
            r,
        ),
{
    run_and_commit_if_success(
        state,
        engine,
        origin,
        sender,
        None,
        call_stack_depth,
        CallType::StaticCall,
        contract_address,
        contract_address,
        input,
        true,
        false,
    )
}
/// Once a deployment has stored code at an address, a later deployment that
/// derives the same address without `recreate` is refused as a duplicate,
/// and the stored code is still there when it is.
pub proof fn lemma_duplicate_guard(
    ready: Ledger,
    writes: Ledger,
    address: Address,
    stored: Seq<u8>,
    address_type: CreateContractAddress,
    sender: Address,
    code: Seq<u8>,
)
    requires
        deployment_target(
            address_type,
            ready.apply(writes).with_code(address, stored),
            sender,
            code,
        ) == address,
    ensures
        is_duplicate(
            address_type,
            ready.apply(writes).with_code(address, stored),
            sender,
            false,
            code,
        ),
        after_nonce(
            address_type,
            ready.apply(writes).with_code(address, stored),
            sender,
        ).code_at(address) == Some(stored),
{
}

} // verus!
