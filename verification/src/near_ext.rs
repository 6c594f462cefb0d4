//! The host binding: what one execution may read and do, as the engine sees
//! it. It is also where the engine comes back for a nested call.
use crate::errors::EvmError;
use crate::evm_state::{code_view, EvmState, Parent, StateStore, SubState};
use crate::frame::{
    ActionParams, CallType, ContractCreateResult, GasLeft, MessageCallResult, Schedule,
    MAX_CALL_DEPTH,
};
use crate::interpreter::{
    _create, after_nonce, call_refusal, call_run, classify, create_refusal, create_run,
    deployment_target, run_against_state, verdict, Creation, Invocation, Settlement, Verdict,
    PREPAID_GAS,
};
use crate::ledger::Ledger;
use crate::types::{Address, H256, U256};
use crate::utils::{evm_contract_address, CreateContractAddress};
use vstd::prelude::*;

verus! {

/// The bytecode engine. It runs the code of one request to its end against a
/// host binding and reports the outcome, or `None` where it failed inside.
///
/// Nothing is assumed of what an engine does. `ran` is the engine's own
/// account of its runs, and an engine is free in it: the orchestration layer
/// only uses it to say which run an outcome came from, that is, which
/// request it handed over, on which binding, and what the binding held when
/// the run ended.
pub trait Engine {
    /// Whether a run of `params` that finds the binding as `before` can leave
    /// it as `after` and report `outcome`. An engine that gives no account of
    /// its runs allows every run.
    open spec fn ran(
        &self,
        params: ActionParams,
        before: ExtView,
        after: ExtView,
        outcome: Option<GasLeft>,
    ) -> bool {
        true
    }

    /// Runs `params` against `ext` and reports how the execution ended.
    fn exec<S: EvmState>(&self, params: ActionParams, ext: &mut NearExt<'_, S>) -> (outcome:
        Option<GasLeft>)
        ensures
            self.ran(params, old(ext)@, final(ext)@, outcome),
    ;
}

/// What a nested message call comes to, given the outcome `result` of the
/// nested execution and the writes `nested` that it buffered: `reported` is
/// what the calling code gets to see, and `after` are the caller's writes,
/// which were `before`. The nested writes are taken in exactly where the
/// nested execution succeeded and was no static call.
pub open spec fn nested_call_settled(
    result: Option<GasLeft>,
    nested: Ledger,
    is_static: bool,
    before: Ledger,
    after: Ledger,
    reported: MessageCallResult,
) -> bool {
    match verdict(result) {
        Verdict::Unknown => reported is Failed && after == before,
        Verdict::Revert { gas_left, gas_used, reason } => {
            &&& reported matches MessageCallResult::Reverted(left, bytes) && left@ == gas_left
                && bytes@ == reason
            &&& after == before
        },
        Verdict::Success { gas_left, gas_used, output } => {
            &&& reported matches MessageCallResult::Success(left, bytes) && left@ == gas_left
                && bytes@ == output
            &&& after == if is_static {
                before
            } else {
                before.apply(nested)
            }
        },
    }
}

/// What a nested creation at `address` comes to, given the outcome `result`
/// of the init code and the writes `nested` that it buffered: `reported` is
/// what the calling code gets to see, and `after` are the caller's writes,
/// which were `before`. Where the init code succeeded, its writes are taken
/// in and what it returned is the code of `address`.
pub open spec fn nested_create_settled(
    result: Option<GasLeft>,
    nested: Ledger,
    address: Address,
    before: Ledger,
    after: Ledger,
    reported: ContractCreateResult,
) -> bool {
    match verdict(result) {
        Verdict::Unknown => reported is Failed && after == before,
        Verdict::Revert { gas_left, gas_used, reason } => {
            &&& reported matches ContractCreateResult::Reverted(left, bytes) && left@ == gas_left
                && bytes@ == reason
            &&& after == before
        },
        Verdict::Success { gas_left, gas_used, output } => {
            &&& reported matches ContractCreateResult::Created(created, left) && created
                == address && left@ == gas_left
            &&& after == before.apply(nested).with_code(address, output)
        },
    }
}

/// The writes of an execution once the nonce for a nested creation has been
/// taken: where the address comes from the nonce of the context, the next
/// nonce of the context is buffered.
pub open spec fn writes_after_nonce(address_type: CreateContractAddress, ext: ExtView) -> Ledger {
    if address_type is FromSenderAndNonce {
        ext.writes.with_nonce(ext.context, ext.ledger().nonce_of(ext.context) + 1)
    } else {
        ext.writes
    }
}

/// Whether the execution that `ext` stands for may make a nested call of
/// the given kind: never a creation, and under a static call only a static
/// call.
pub open spec fn nested_call_allowed(ext: ExtView, call_type: CallType) -> bool {
    !(call_type is Create) && (ext.is_static ==> call_type is StaticCall)
}

/// The invocation that a nested call from the execution that `ext` stands
/// for amounts to. The code of `receive_address` runs on its own storage,
/// but for a delegate call, where the code of `code_address` runs on the
/// storage of `receive_address`; a value moves only with a `Call`; a static
/// call may not write; and the caller's depth is that of the binding.
pub open spec fn nested_invocation(
    ext: ExtView,
    sender_address: Address,
    receive_address: Address,
    value: Option<U256>,
    data: Seq<u8>,
    code_address: Address,
    call_type: CallType,
) -> Invocation {
    Invocation {
        origin: ext.origin,
        sender: sender_address,
        value: if call_type is Call {
            value
        } else {
            None
        },
        call_stack_depth: ext.depth,
        call_type,
        state_address: receive_address,
        code_address: if call_type is DelegateCall {
            code_address
        } else {
            receive_address
        },
        input: data,
        is_static: call_type is StaticCall,
    }
}

/// The creation that a nested creation from the execution that `ext` stands
/// for amounts to: the context creates, at the address derived for it, one
/// level below the binding.
pub open spec fn nested_creation(
    ext: ExtView,
    value: U256,
    code: Seq<u8>,
    address_type: CreateContractAddress,
) -> Creation {
    Creation {
        origin: ext.origin,
        sender: ext.context,
        value,
        call_stack_depth: ext.depth,
        address: deployment_target(address_type, ext.ledger(), ext.context, code),
        code,
    }
}

/// Settles a nested message call on the writes of the execution that made
/// it: given the engine's outcome and the writes that the nested execution
/// buffered, it says what the caller's code gets to see, and takes the
/// nested writes into `writes` exactly where the nested execution succeeded
/// and was no static call. A nested execution that reverted or failed leaves
/// `writes` as they were.
pub fn settle_nested_call(
    writes: &mut StateStore,
    result: Option<GasLeft>,
    state_updates: StateStore,
    is_static: bool,
) -> (r: MessageCallResult)
    ensures
        nested_call_settled(result, state_updates@, is_static, old(writes)@, final(writes)@, r),
        !(r is Success) || is_static ==> *final(writes) == *old(writes),
{
    match classify(result) {
        Settlement::Unknown => MessageCallResult::Failed,
        Settlement::Revert { gas_left, gas_used, reason } => MessageCallResult::Reverted(
            gas_left,
            reason,
        ),
        Settlement::Success { gas_left, gas_used, output } => {
            if !is_static {
                writes.merge(state_updates);
            }
            MessageCallResult::Success(gas_left, output)
        },
    }
}

/// Settles a nested creation on the writes of the execution that made it:
/// where the init code succeeded, its writes are taken into `writes` and
/// what it returned is buffered as the code of `address`; where it reverted
/// or failed, `writes` are left as they were.
pub fn settle_nested_create(
    writes: &mut StateStore,
    address: &Address,
    result: Option<GasLeft>,
    state_updates: StateStore,
) -> (r: ContractCreateResult)
    ensures
        nested_create_settled(result, state_updates@, *address, old(writes)@, final(writes)@, r),
        !(r is Created) ==> *final(writes) == *old(writes),
{
    match classify(result) {
        Settlement::Unknown => ContractCreateResult::Failed,
        Settlement::Revert { gas_left, gas_used, reason } => ContractCreateResult::Reverted(
            gas_left,
            reason,
        ),
        Settlement::Success { gas_left, gas_used, output } => {
            writes.merge(state_updates);
            writes.write_code(address, output);
            ContractCreateResult::Created(*address, gas_left)
        },
    }
}

/// What a host binding stands for.
#[verifier::ext_equal]
pub ghost struct ExtView {
    /// The account whose storage and identity the code runs under.
    pub context: Address,
    /// The account that started the outermost call.
    pub origin: Address,
    /// The account on whose behalf the execution runs.
    pub msg_sender: Address,
    /// How deep in the call stack the execution is.
    pub depth: nat,
    /// Whether the execution may only read.
    pub is_static: bool,
    /// The gas that the execution may use.
    pub gas_limit: nat,
    /// The limits that the engine sizes its tables by.
    pub schedule: Schedule,
    /// The state below this execution, which it can only read.
    pub base: Ledger,
    /// What this execution has written so far.
    pub writes: Ledger,
}

impl ExtView {
    /// The state as the execution sees it.
    pub open spec fn ledger(self) -> Ledger {
        self.base.apply(self.writes)
    }
}

/// The host binding of one execution.
pub struct NearExt<'a, S> {
    gas_limit: U256,
    schedule: Schedule,
    origin: Address,
    context_addr: Address,
    sub_state: SubState<'a, S>,
    static_flag: bool,
    depth: usize,
}

impl<'a, S: EvmState> View for NearExt<'a, S> {
    type V = ExtView;

    closed spec fn view(&self) -> ExtView {
        ExtView {
            context: self.context_addr,
            origin: self.origin,
            msg_sender: self.sub_state.msg_sender,
            depth: self.depth as nat,
            is_static: self.static_flag,
            gas_limit: self.gas_limit@,
            schedule: self.schedule,
            base: self.sub_state.parent.ledger(),
            writes: self.sub_state.store@,
        }
    }
}

impl<'a, S: EvmState> NearExt<'a, S> {
    /// The binding of an execution that runs under `context_addr` on the
    /// view `sub_state`, at the given depth, with the prepaid gas as its
    /// limit and the Constantinople schedule.
    pub fn new(
        context_addr: Address,
        origin: Address,
        sub_state: SubState<'a, S>,
        depth: usize,
        static_flag: bool,
    ) -> (r: NearExt<'a, S>)
        ensures
            r@ == (ExtView {
                context: context_addr,
                origin: origin,
                msg_sender: sub_state.msg_sender,
                depth: depth as nat,
                is_static: static_flag,
                gas_limit: PREPAID_GAS as nat,
                schedule: Schedule { max_depth: MAX_CALL_DEPTH },
                base: sub_state.parent.ledger(),
                writes: sub_state.store@,
            }),
    {
        NearExt {
            gas_limit: U256::from_u128(PREPAID_GAS),
            schedule: Schedule::new_constantinople(),
            origin,
            context_addr,
            sub_state,
            static_flag,
            depth,
        }
    }

    /// Ends the binding and hands out what the execution wrote.
    pub fn into_store(self) -> (r: StateStore)
        ensures
            r@ == self@.writes,
    {
        self.sub_state.into_store()
    }

    /// How deep in the call stack the execution is.
    pub fn depth(&self) -> (r: usize)
        ensures
            r == self@.depth,
    {
        self.depth
    }

    /// Whether the execution may only read.
    pub fn is_static(&self) -> (r: bool)
        ensures
            r == self@.is_static,
    {
        self.static_flag
    }

    /// The schedule that the engine sizes its tables by.
    pub fn schedule(&self) -> (r: &Schedule)
        ensures
            *r == self@.schedule,
    {
        &self.schedule
    }

    /// The gas limit of the execution.
    pub fn gas_limit(&self) -> (r: U256)
        ensures
            r@ == self@.gas_limit,
    {
        self.gas_limit
    }

    /// The account whose storage and identity the code runs under.
    pub fn context_address(&self) -> (r: Address)
        ensures
            r == self@.context,
    {
        self.context_addr
    }

    /// The account that started the outermost call.
    pub fn origin(&self) -> (r: Address)
        ensures
            r == self@.origin,
    {
        self.origin
    }

    /// The word in slot `key` of the context's storage; a slot that was never
    /// written reads as zero.
    pub fn storage_at(&self, key: &H256) -> (r: Result<H256, EvmError>)
        ensures
            self@.writes.storage.dom().contains((self@.context, *key)) ==> r is Ok,
            match r {
                Ok(word) => match self@.ledger().storage_at(self@.context, *key) {
                    Some(stored) => word == stored,
                    None => word.is_zero(),
                },
                Err(EvmError::State(_)) => true,
                Err(_) => false,
            },
    {
        match self.sub_state.read_contract_storage(&self.context_addr, key) {
            Ok(Some(word)) => Ok(word),
            Ok(None) => Ok(H256::zero()),
            Err(e) => Err(EvmError::State(e)),
        }
    }

    /// Writes `value` to slot `key` of the context's storage. Under a static
    /// call it fails and writes nothing.
    pub fn set_storage(&mut self, key: H256, value: H256) -> (r: Result<(), EvmError>)
        ensures
            old(self)@.is_static ==> r == Err::<(), EvmError>(
                EvmError::MutableCallInStaticContext,
            ) && *final(self) == *old(self),
            !old(self)@.is_static ==> r is Ok && final(self)@ == (ExtView {
                writes: old(self)@.writes.with_storage(old(self)@.context, key, value),
                ..old(self)@
            }) && final(self)@.ledger() == old(self)@.ledger().with_storage(
                old(self)@.context,
                key,
                value,
            ),
    {
        if self.static_flag {
            return Err(EvmError::MutableCallInStaticContext);
        }
        let context = self.context_addr;
        self.sub_state.set_contract_storage(&context, &key, value);
        Ok(())
    }

    /// The balance of `address`.
    pub fn balance(&self, address: &Address) -> (r: Result<U256, EvmError>)
        ensures
            self@.writes.balances.dom().contains(*address) ==> r is Ok,
            match r {
                Ok(amount) => amount@ == self@.ledger().balance_of(*address),
                Err(EvmError::State(_)) => true,
                Err(_) => false,
            },
    {
        match self.sub_state.balance_of(address) {
            Ok(amount) => Ok(amount),
            Err(e) => Err(EvmError::State(e)),
        }
    }

    /// The balance of the account that started the outermost call.
    pub fn origin_balance(&self) -> (r: Result<U256, EvmError>)
        ensures
            self@.writes.balances.dom().contains(self@.origin) ==> r is Ok,
            match r {
                Ok(amount) => amount@ == self@.ledger().balance_of(self@.origin),
                Err(EvmError::State(_)) => true,
                Err(_) => false,
            },
    {
        self.balance(&self.origin)
    }

    /// The code at `address`, if it has any.
    pub fn extcode(&self, address: &Address) -> (r: Result<Option<Vec<u8>>, EvmError>)
        ensures
            self@.writes.code.dom().contains(*address) ==> r is Ok,
            match r {
                Ok(code) => code_view(code) == self@.ledger().code_at(*address),
                Err(EvmError::State(_)) => true,
                Err(_) => false,
            },
    {
        match self.sub_state.code_at(address) {
            Ok(code) => Ok(code),
            Err(e) => Err(EvmError::State(e)),
        }
    }

    /// Moves `amount` from the context to `to`. Under a static call it fails
    /// and moves nothing.
    pub fn transfer(&mut self, to: &Address, amount: U256) -> (r: Result<(), EvmError>)
        ensures
            old(self)@.is_static ==> r == Err::<(), EvmError>(
                EvmError::MutableCallInStaticContext,
            ),
            !old(self)@.is_static && old(self)@.writes.balances.dom().contains(old(self)@.context)
                && old(self)@.writes.balances.dom().contains(*to) ==> !(r matches Err(
                EvmError::State(_),
            )),
            r is Err ==> *final(self) == *old(self),
            r is Ok ==> {
                &&& old(self)@.ledger().can_transfer(old(self)@.context, *to, amount@)
                &&& final(self)@.ledger() == old(self)@.ledger().transfer(
                    old(self)@.context,
                    *to,
                    amount@,
                )
                &&& final(self)@ == (ExtView {
                    writes: old(self)@.ledger().transfer_onto(
                        old(self)@.writes,
                        old(self)@.context,
                        *to,
                        amount@,
                    ),
                    ..old(self)@
                })
            },
            match r {
                Ok(()) => true,
                Err(EvmError::MutableCallInStaticContext) => old(self)@.is_static,
                Err(EvmError::InsufficientFunds) => amount@ > old(self)@.ledger().balance_of(
                    old(self)@.context,
                ),
                Err(EvmError::IntegerOverflow) => !old(self)@.ledger().can_transfer(
                    old(self)@.context,
                    *to,
                    amount@,
                ),
                Err(EvmError::State(_)) => true,
                Err(_) => false,
            },
    {
        if self.static_flag {
            return Err(EvmError::MutableCallInStaticContext);
        }
        let context = self.context_addr;
        self.sub_state.transfer_balance(&context, to, amount)
    }

    /// A nested message call: the engine asks for the code at `code_address`
    /// to run, one level deeper, on top of what this execution has written.
    ///
    /// The call is not made, and `Failed` is reported, under a static call
    /// unless it is itself a static call, for a creation, at the greatest
    /// depth, and where the value that comes with a `Call` cannot be moved
    /// from `sender_address` to `receive_address`; a failed read of the
    /// ledger has the same end. Where the call is made, the engine runs on
    /// exactly the request and the binding of this invocation, and what is
    /// reported and what becomes of this execution's writes is the
    /// settlement of what that run ended with: the nested writes are taken
    /// in only where it succeeded and was no static call, and where it
    /// reverted or failed this execution's writes are as they were.
    pub fn call<E: Engine>(
        &mut self,
        engine: &E,
        sender_address: &Address,
        receive_address: &Address,
        value: Option<U256>,
        data: &[u8],
        code_address: &Address,
        call_type: CallType,
    ) -> (r: MessageCallResult)
        ensures
            !(r is Success) ==> *final(self) == *old(self),
            call_type is StaticCall ==> *final(self) == *old(self),
            final(self)@ == (ExtView { writes: final(self)@.writes, ..old(self)@ }),
            ({
                let inv = nested_invocation(
                    old(self)@,
                    *sender_address,
                    *receive_address,
                    value,
                    data@,
                    *code_address,
                    call_type,
                );
                if !nested_call_allowed(old(self)@, call_type) || call_refusal(
                    old(self)@.ledger(),
                    inv,
                ) is Some {
                    r is Failed
                } else {
                    r is Failed || exists|result: Option<GasLeft>, nested: Ledger|
                        #[trigger] call_run(engine, old(self)@.ledger(), inv, result, nested)
                            && nested_call_settled(
                            result,
                            nested,
                            inv.is_static,
                            old(self)@.writes,
                            final(self)@.writes,
                            r,
                        )
                }
            }),
    {
        let nested_static = match call_type {
            CallType::StaticCall => true,
            _ => false,
        };
        if self.static_flag && !nested_static {
            return MessageCallResult::Failed;
        }
        let run = match call_type {
            CallType::Create => {
                return MessageCallResult::Failed;
            },
            CallType::Call => run_against_state(
                Parent::Sub(&self.sub_state),
                engine,
                &self.origin,
                sender_address,
                value,
                self.depth,
                call_type,
                receive_address,
                receive_address,
                data,
                false,
            ),
            CallType::StaticCall => run_against_state(
                Parent::Sub(&self.sub_state),
                engine,
                &self.origin,
                sender_address,
                None,
                self.depth,
                call_type,
                receive_address,
                receive_address,
                data,
                true,
            ),
            CallType::DelegateCall => run_against_state(
                Parent::Sub(&self.sub_state),
                engine,
                &self.origin,
                sender_address,
                None,
                self.depth,
                call_type,
                receive_address,
                code_address,
                data,
                false,
            ),
        };
        let (result, state_updates) = match run {
            Ok(pair) => pair,
            Err(_) => {
                return MessageCallResult::Failed;
            },
        };
        let state_updates = state_updates.unwrap();
        settle_nested_call(&mut self.sub_state.store, result, state_updates, nested_static)
    }

    /// A nested creation: the engine asks for `code` to run as the init code
    /// of a new contract that the context creates, one level deeper, on top
    /// of what this execution has written. The address is derived as for a
    /// deployment, with the context as the sender.
    ///
    /// Under a static call nothing is created and nothing changes. Otherwise
    /// the nonce for the address is taken first, in this execution's writes.
    /// The init code is not run, and `Failed` is reported, at the greatest
    /// depth, where the address already holds code, and where `value` cannot
    /// be moved from the context to the address; a failed read of the ledger
    /// has the same end. Where the init code is run, the engine runs on
    /// exactly the request and the binding of this creation, and what is
    /// reported and what becomes of this execution's writes is the
    /// settlement of what that run ended with: where it succeeded its writes
    /// are taken in and what it returned is the new contract's code, and
    /// where it reverted or failed nothing of it is left but the taken
    /// nonce.
    pub fn create<E: Engine>(
        &mut self,
        engine: &E,
        value: U256,
        code: &[u8],
        address_type: CreateContractAddress,
    ) -> (r: ContractCreateResult)
        ensures
            old(self)@.is_static ==> r is Failed && *final(self) == *old(self),
            final(self)@ == (ExtView { writes: final(self)@.writes, ..old(self)@ }),
            ({
                let taken = after_nonce(address_type, old(self)@.ledger(), old(self)@.context);
                let c = nested_creation(old(self)@, value, code@, address_type);
                &&& taken.code_at(c.address) is Some || create_refusal(taken, c) is Some ==> r
                    is Failed
                &&& r is Failed ==> final(self)@.writes == old(self)@.writes || final(self)@.writes == writes_after_nonce(address_type, old(self)@)
                &&& r is Failed ==> final(self)@.ledger() == old(self)@.ledger() || final(self)@.ledger() == taken
                &&& !(r is Failed) ==> exists|result: Option<GasLeft>, nested: Ledger|
                    #[trigger] create_run(engine, taken, c, result, nested)
                        && nested_create_settled(
                        result,
                        nested,
                        c.address,
                        writes_after_nonce(address_type, old(self)@),
                        final(self)@.writes,
                        r,
                    )
                &&& r is Reverted ==> final(self)@.ledger() == taken
                &&& r matches ContractCreateResult::Created(address, _) ==> {
                    &&& address == c.address
                    &&& exists|writes: Ledger, stored: Seq<u8>|
                        final(self)@.ledger() == taken.apply(writes).with_code(address, stored)
                }
            }),
    {
        if self.static_flag {
            return ContractCreateResult::Failed;
        }
        let context = self.context_addr;
        let mut nonce = U256::zero();
        if let CreateContractAddress::FromSenderAndNonce = address_type {
            nonce = match self.sub_state.next_nonce(&context) {
                Ok(nonce) => nonce,
                Err(_) => {
                    return ContractCreateResult::Failed;
                },
            };
        }
        let (address, _) = evm_contract_address(address_type, &context, &nonce, code);
        let ghost before = self@.writes;
        match self.sub_state.code_at(&address) {
            Ok(None) => {},
            _ => {
                return ContractCreateResult::Failed;
            },
        }
        let run = _create(
            Parent::Sub(&self.sub_state),
            engine,
            &self.origin,
            &context,
            value,
            self.depth,
            &address,
            code,
        );
        let (result, state_updates) = match run {
            Ok(pair) => pair,
            Err(_) => {
                return ContractCreateResult::Failed;
            },
        };
        let state_updates = state_updates.unwrap();
        let ghost base = self.sub_state.parent.ledger();
        let r = settle_nested_create(&mut self.sub_state.store, &address, result, state_updates);
        proof {
            let stored = self.sub_state.store@.code[address];
            assert(base.apply(before.apply(state_updates@).with_code(address, stored))
                =~= base.apply(before).apply(state_updates@).with_code(address, stored));
        }
        r
    }
}

} // verus!
