//! The four entry points, driven by a small engine that runs a handful of
//! EVM opcodes against the host binding.
use near_evm_runner::errors::{EvmError, StateError};
use near_evm_runner::evm_state::{EvmState, Parent, StateStore, SubState};
use near_evm_runner::frame::{
    ActionParams, CallType, ContractCreateResult, GasLeft, MessageCallResult, MAX_CALL_DEPTH,
};
use near_evm_runner::ledger::Ledger;
use near_evm_runner::interpreter::{
    call, delegate_call, deploy_code, run_and_commit_if_success, static_call, PREPAID_GAS,
};
use near_evm_runner::near_ext::{Engine, NearExt};
use near_evm_runner::types::{Address, H256, U256};
use near_evm_runner::utils::CreateContractAddress;

const STOP: u8 = 0x00;
const SLOAD: u8 = 0x54;
const SSTORE: u8 = 0x55;
const MSTORE: u8 = 0x52;
const PUSH1: u8 = 0x60;
const PUSH4: u8 = 0x63;
const PUSH20: u8 = 0x73;
const CALL: u8 = 0xf1;
const RETURN: u8 = 0xf3;
const DELEGATECALL: u8 = 0xf4;
const STATICCALL: u8 = 0xfa;
const REVERT: u8 = 0xfd;

/// One unit of gas for each opcode; every word is 32 bytes, big-endian.
struct MiniEvm;

fn low_usize(word: &[u8; 32]) -> usize {
    let mut n: usize = 0;
    for b in &word[24..] {
        n = (n << 8) | (*b as usize);
    }
    n
}

fn word_of(n: u64) -> [u8; 32] {
    let mut w = [0u8; 32];
    w[24..].copy_from_slice(&n.to_be_bytes());
    w
}

fn address_of_word(word: &[u8; 32]) -> Address {
    let mut bytes = [0u8; 20];
    bytes.copy_from_slice(&word[12..]);
    Address::new(bytes)
}

fn amount_of_word(word: &[u8; 32]) -> U256 {
    let mut limbs = [0u64; 4];
    for i in 0..4 {
        let mut chunk = [0u8; 8];
        chunk.copy_from_slice(&word[8 * i..8 * i + 8]);
        limbs[3 - i] = u64::from_be_bytes(chunk);
    }
    U256 { limbs }
}

impl Engine for MiniEvm {
    fn exec<S: EvmState>(&self, params: ActionParams, ext: &mut NearExt<'_, S>) -> Option<GasLeft> {
        let code = params.code.clone().unwrap_or_default();
        let mut stack: Vec<[u8; 32]> = Vec::new();
        let mut memory = vec![0u8; 4096];
        let mut pc = 0usize;
        let mut gas = PREPAID_GAS as u64;
        loop {
            if pc >= code.len() {
                return Some(GasLeft::Known(U256::from_u64(gas)));
            }
            let op = code[pc];
            pc += 1;
            gas -= 1;
            match op {
                STOP => return Some(GasLeft::Known(U256::from_u64(gas))),
                0x60..=0x7f => {
                    let n = (op - 0x5f) as usize;
                    if pc + n > code.len() {
                        return None;
                    }
                    let mut w = [0u8; 32];
                    w[32 - n..].copy_from_slice(&code[pc..pc + n]);
                    stack.push(w);
                    pc += n;
                }
                MSTORE => {
                    let offset = low_usize(&stack.pop()?);
                    let value = stack.pop()?;
                    memory[offset..offset + 32].copy_from_slice(&value);
                }
                SLOAD => {
                    let key = stack.pop()?;
                    let word = ext.storage_at(&H256::new(key)).ok()?;
                    stack.push(word.bytes);
                }
                SSTORE => {
                    let key = stack.pop()?;
                    let value = stack.pop()?;
                    ext.set_storage(H256::new(key), H256::new(value)).ok()?;
                }
                RETURN | REVERT => {
                    let offset = low_usize(&stack.pop()?);
                    let size = low_usize(&stack.pop()?);
                    return Some(GasLeft::NeedsReturn {
                        gas_left: U256::from_u64(gas),
                        data: memory[offset..offset + size].to_vec(),
                        apply_state: op == RETURN,
                    });
                }
                CALL | DELEGATECALL | STATICCALL => {
                    let _gas = stack.pop()?;
                    let to = address_of_word(&stack.pop()?);
                    let value = if op == CALL { Some(amount_of_word(&stack.pop()?)) } else { None };
                    let in_offset = low_usize(&stack.pop()?);
                    let in_size = low_usize(&stack.pop()?);
                    let out_offset = low_usize(&stack.pop()?);
                    let out_size = low_usize(&stack.pop()?);
                    let data = memory[in_offset..in_offset + in_size].to_vec();
                    let result = match op {
                        CALL => ext.call(self, &params.address, &to, value, &data, &to, CallType::Call),
                        STATICCALL => ext.call(
                            self,
                            &params.address,
                            &to,
                            None,
                            &data,
                            &to,
                            CallType::StaticCall,
                        ),
                        _ => ext.call(
                            self,
                            &params.sender,
                            &params.address,
                            None,
                            &data,
                            &to,
                            CallType::DelegateCall,
                        ),
                    };
                    let (flag, returned) = match result {
                        MessageCallResult::Success(_, data) => (1, data),
                        MessageCallResult::Reverted(_, data) => (0, data),
                        MessageCallResult::Failed => (0, Vec::new()),
                    };
                    let n = returned.len().min(out_size);
                    memory[out_offset..out_offset + n].copy_from_slice(&returned[..n]);
                    stack.push(word_of(flag));
                }
                _ => return None,
            }
        }
    }
}

/// An engine that reports more gas left than any execution is given.
struct Overspend;

impl Engine for Overspend {
    fn exec<S: EvmState>(&self, _params: ActionParams, _ext: &mut NearExt<'_, S>) -> Option<GasLeft> {
        Some(GasLeft::Known(U256::from_u128(PREPAID_GAS + 1)))
    }
}

/// An engine that writes one slot and then claims to have failed inside.
struct WriteThenFail;

impl Engine for WriteThenFail {
    fn exec<S: EvmState>(&self, _params: ActionParams, ext: &mut NearExt<'_, S>) -> Option<GasLeft> {
        ext.set_storage(H256::new(word_of(1)), H256::new(word_of(1))).ok()?;
        None
    }
}

/// An engine whose contracts create a contract: the init code returns one
/// byte of code, and the creating code returns the new address, or reverts
/// with no reason where nothing was created.
struct Creator;

impl Engine for Creator {
    fn exec<S: EvmState>(&self, params: ActionParams, ext: &mut NearExt<'_, S>) -> Option<GasLeft> {
        let gas_left = U256::from_u64(7);
        if params.call_type == CallType::Create {
            return Some(GasLeft::NeedsReturn { gas_left, data: vec![0xaa], apply_state: true });
        }
        let mode = CreateContractAddress::FromSenderAndNonce;
        match ext.create(self, U256::from_u64(2), &[STOP], mode) {
            ContractCreateResult::Created(address, _) => Some(GasLeft::NeedsReturn {
                gas_left,
                data: address.bytes.to_vec(),
                apply_state: true,
            }),
            _ => Some(GasLeft::NeedsReturn { gas_left, data: Vec::new(), apply_state: false }),
        }
    }
}

fn addr(hex: &str) -> Address {
    let mut bytes = [0u8; 20];
    for i in 0..20 {
        bytes[i] = u8::from_str_radix(&hex[2 * i..2 * i + 2], 16).unwrap();
    }
    Address::new(bytes)
}

fn sender() -> Address {
    addr("6ac7ea33f8831ea9dcc53393aaa88b25a785dbf0")
}

fn contract_a() -> Address {
    addr("aaaaaaaaaaaaaaaaaaaaaaaaaaaaaaaaaaaaaaaa")
}

fn contract_b() -> Address {
    addr("bbbbbbbbbbbbbbbbbbbbbbbbbbbbbbbbbbbbbbbb")
}

fn slot(n: u64) -> H256 {
    H256::new(word_of(n))
}

/// `PUSH1 value, PUSH1 key, SSTORE`.
fn store(key: u8, value: u8) -> Vec<u8> {
    vec![PUSH1, value, PUSH1, key, SSTORE]
}

/// `PUSH4 "nope", PUSH1 0, MSTORE, PUSH1 4, PUSH1 28`, then `last`.
fn nope_then(last: u8) -> Vec<u8> {
    vec![PUSH4, b'n', b'o', b'p', b'e', PUSH1, 0, MSTORE, PUSH1, 4, PUSH1, 28, last]
}

/// A message call of `op` to `to` with no input, no output and no value; the
/// flag that the call leaves is on top of the stack afterwards.
fn call_to(op: u8, to: &Address) -> Vec<u8> {
    let mut code = vec![PUSH1, 0, PUSH1, 0, PUSH1, 0, PUSH1, 0];
    if op == CALL {
        code.extend_from_slice(&[PUSH1, 0]);
    }
    code.push(PUSH20);
    code.extend_from_slice(&to.bytes);
    code.extend_from_slice(&[PUSH1, 0, op]);
    code
}

fn ledger_with(contracts: &[(Address, Vec<u8>)]) -> StateStore {
    let mut state = StateStore::new();
    for (address, code) in contracts {
        state.set_code(address, code).unwrap();
    }
    state
}

#[test]
fn deploy_stop_code_succeeds_at_derived_address() {
    let mut state = StateStore::new();
    let s = sender();
    let deployed = deploy_code(
        &mut state,
        &MiniEvm,
        &s,
        &s,
        U256::zero(),
        0,
        CreateContractAddress::FromSenderAndNonce,
        false,
        &[STOP],
    ).result
    .unwrap();
    assert_eq!(deployed, addr("cd234a471b72ba2f1ccf0a70fcaba648a5eecd8d"));
    assert_eq!(state.code_at(&deployed), Ok(Some(Vec::new())));
    assert_eq!(state.nonce_of(&s), Ok(U256::from_u64(1)));
}

#[test]
fn deploy_stores_returned_bytes_as_code() {
    let mut state = StateStore::new();
    let s = sender();
    let deployed = deploy_code(
        &mut state,
        &MiniEvm,
        &s,
        &s,
        U256::zero(),
        0,
        CreateContractAddress::FromSenderAndNonce,
        false,
        &nope_then(RETURN),
    ).result
    .unwrap();
    assert_eq!(state.code_at(&deployed), Ok(Some(b"nope".to_vec())));
}

#[test]
fn second_deploy_from_same_sender_uses_next_nonce() {
    let mut state = StateStore::new();
    let s = sender();
    let mode = CreateContractAddress::FromSenderAndNonce;
    deploy_code(&mut state, &MiniEvm, &s, &s, U256::zero(), 0, mode, false, &[STOP]).result.unwrap();
    let second =
        deploy_code(&mut state, &MiniEvm, &s, &s, U256::zero(), 0, mode, false, &[STOP]).result.unwrap();
    assert_eq!(second, addr("343c43a37d37dff08ae8c4a11544c718abb4fcf8"));
    assert_eq!(state.nonce_of(&s), Ok(U256::from_u64(2)));
}

#[test]
fn deploy_twice_to_same_address_is_duplicate() {
    let mut state = StateStore::new();
    let s = sender();
    let mode = CreateContractAddress::FromSenderAndCodeHash;
    let first =
        deploy_code(&mut state, &MiniEvm, &s, &s, U256::zero(), 0, mode, false, &[STOP]).result.unwrap();
    assert_eq!(first, addr("cc208393eeb5a2ac72610decd2eed55fe225e66d"));
    let before = state.clone();
    let second = deploy_code(&mut state, &MiniEvm, &s, &s, U256::zero(), 0, mode, false, &[STOP]).result;
    assert_eq!(
        second,
        Err(EvmError::DuplicateContract("cc208393eeb5a2ac72610decd2eed55fe225e66d".to_string()))
    );
    assert_eq!(state, before);
    assert_eq!(state.code_at(&first), Ok(Some(Vec::new())));
}

#[test]
fn deploy_again_to_address_of_nonce_zero_is_duplicate() {
    let mut state = StateStore::new();
    let s = sender();
    let mode = CreateContractAddress::FromSenderAndNonce;
    let first = deploy_code(
        &mut state,
        &MiniEvm,
        &s,
        &s,
        U256::zero(),
        0,
        mode,
        false,
        &nope_then(RETURN),
    ).result
    .unwrap();
    state.write_nonce(&s, U256::zero());
    let second = deploy_code(&mut state, &MiniEvm, &s, &s, U256::zero(), 0, mode, false, &[STOP]).result;
    assert_eq!(
        second,
        Err(EvmError::DuplicateContract("cd234a471b72ba2f1ccf0a70fcaba648a5eecd8d".to_string()))
    );
    assert_eq!(state.code_at(&first), Ok(Some(b"nope".to_vec())));
    assert_eq!(state.nonce_of(&s), Ok(U256::from_u64(1)));
}

#[test]
fn deploy_with_recreate_overwrites_and_clears_storage() {
    let s = sender();
    let mode = CreateContractAddress::FromSenderAndCodeHash;
    let target = addr("cc208393eeb5a2ac72610decd2eed55fe225e66d");
    let mut state = ledger_with(&[(target, vec![1, 2, 3]), (contract_a(), vec![9])]);
    state.write_storage(&target, &slot(7), slot(8));
    state.write_storage(&contract_a(), &slot(7), slot(8));
    let deployed =
        deploy_code(&mut state, &MiniEvm, &s, &s, U256::zero(), 0, mode, true, &[STOP]).result.unwrap();
    assert_eq!(deployed, target);
    assert_eq!(state.code_at(&target), Ok(Some(Vec::new())));
    assert_eq!(state.read_contract_storage(&target, &slot(7)), Ok(None));
    assert_eq!(state.read_contract_storage(&contract_a(), &slot(7)), Ok(Some(slot(8))));
    assert_eq!(state.code_at(&contract_a()), Ok(Some(vec![9])));
}

#[test]
fn deploy_that_reverts_fails_and_commits_nothing() {
    let mut state = StateStore::new();
    let s = sender();
    state.write_balance(&s, U256::from_u64(10));
    let mut code = store(1, 1);
    code.extend(nope_then(REVERT));
    let r = deploy_code(
        &mut state,
        &MiniEvm,
        &s,
        &s,
        U256::from_u64(4),
        0,
        CreateContractAddress::FromSenderSaltAndCodeHash(slot(0)),
        false,
        &code,
    ).result;
    assert_eq!(r, Err(EvmError::DeployFail("6e6f7065".to_string())));
    assert_eq!(state.balance_of(&s), Ok(U256::from_u64(10)));
    assert_eq!(state.storages.len(), 0);
    assert_eq!(state.code.len(), 0);
}

#[test]
fn deploy_moves_value_to_new_contract() {
    let mut state = StateStore::new();
    let s = sender();
    state.write_balance(&s, U256::from_u64(10));
    let deployed = deploy_code(
        &mut state,
        &MiniEvm,
        &s,
        &s,
        U256::from_u64(4),
        0,
        CreateContractAddress::FromSenderAndNonce,
        false,
        &[STOP],
    ).result
    .unwrap();
    assert_eq!(state.balance_of(&s), Ok(U256::from_u64(6)));
    assert_eq!(state.balance_of(&deployed), Ok(U256::from_u64(4)));
}

#[test]
fn deploy_with_unclassifiable_outcome_is_unknown_error() {
    let mut state = StateStore::new();
    let s = sender();
    let r = deploy_code(
        &mut state,
        &MiniEvm,
        &s,
        &s,
        U256::zero(),
        0,
        CreateContractAddress::FromSenderAndCodeHash,
        false,
        &[0xfe],
    ).result;
    assert_eq!(r, Err(EvmError::UnknownError));
    assert_eq!(state, StateStore::new());
}

#[test]
fn call_that_reverts_returns_reason_and_leaves_balances() {
    let s = sender();
    let a = contract_a();
    let mut state = ledger_with(&[(a, nope_then(REVERT))]);
    state.write_balance(&s, U256::from_u64(100));
    let before = state.clone();
    let r = call(&mut state, &MiniEvm, &s, &s, Some(U256::from_u64(30)), 0, &a, &[], true).result;
    assert_eq!(r, Err(EvmError::Revert("6e6f7065".to_string())));
    assert_eq!(state, before);
    assert_eq!(state.balance_of(&s), Ok(U256::from_u64(100)));
    assert_eq!(state.balance_of(&a), Ok(U256::zero()));
}

#[test]
fn call_commits_writes_and_transfer_when_asked() {
    let s = sender();
    let a = contract_a();
    let mut code = store(5, 9);
    code.extend(nope_then(RETURN));
    let mut state = ledger_with(&[(a, code)]);
    state.write_balance(&s, U256::from_u64(100));
    let r = call(&mut state, &MiniEvm, &s, &s, Some(U256::from_u64(30)), 0, &a, &[], true).result;
    assert_eq!(r, Ok(b"nope".to_vec()));
    assert_eq!(state.read_contract_storage(&a, &slot(5)), Ok(Some(slot(9))));
    assert_eq!(state.balance_of(&s), Ok(U256::from_u64(70)));
    assert_eq!(state.balance_of(&a), Ok(U256::from_u64(30)));
}

#[test]
fn call_without_commit_returns_output_and_changes_nothing() {
    let s = sender();
    let a = contract_a();
    let mut code = store(5, 9);
    code.extend(nope_then(RETURN));
    let mut state = ledger_with(&[(a, code)]);
    state.write_balance(&s, U256::from_u64(100));
    let before = state.clone();
    let r = call(&mut state, &MiniEvm, &s, &s, Some(U256::from_u64(30)), 0, &a, &[], false).result;
    assert_eq!(r, Ok(b"nope".to_vec()));
    assert_eq!(state, before);
}

#[test]
fn call_to_account_without_code_succeeds_with_empty_output() {
    let s = sender();
    let mut state = StateStore::new();
    let r = call(&mut state, &MiniEvm, &s, &s, None, 0, &contract_a(), &[1, 2], true).result;
    assert_eq!(r, Ok(Vec::new()));
}

#[test]
fn call_with_value_above_balance_is_insufficient_funds() {
    let s = sender();
    let a = contract_a();
    let mut state = ledger_with(&[(a, store(5, 9))]);
    state.write_balance(&s, U256::from_u64(29));
    let before = state.clone();
    let r = call(&mut state, &MiniEvm, &s, &s, Some(U256::from_u64(30)), 0, &a, &[], true).result;
    assert_eq!(r, Err(EvmError::InsufficientFunds));
    assert_eq!(state, before);
}

#[test]
fn call_that_overflows_receiver_is_integer_overflow() {
    let s = sender();
    let a = contract_a();
    let mut state = ledger_with(&[(a, vec![STOP])]);
    state.write_balance(&s, U256::from_u64(1));
    state.write_balance(&a, U256 { limbs: [u64::MAX; 4] });
    let before = state.clone();
    let r = call(&mut state, &MiniEvm, &s, &s, Some(U256::from_u64(1)), 0, &a, &[], true).result;
    assert_eq!(r, Err(EvmError::IntegerOverflow));
    assert_eq!(state, before);
}

#[test]
fn call_to_self_with_value_keeps_balance() {
    let s = sender();
    let mut state = StateStore::new();
    state.write_balance(&s, U256::from_u64(5));
    let r = call(&mut state, &MiniEvm, &s, &s, Some(U256::from_u64(5)), 0, &s, &[], true).result;
    assert_eq!(r, Ok(Vec::new()));
    assert_eq!(state.balance_of(&s), Ok(U256::from_u64(5)));
}

#[test]
fn call_at_maximum_depth_is_refused() {
    let s = sender();
    let a = contract_a();
    let mut state = ledger_with(&[(a, store(5, 9))]);
    let before = state.clone();
    let r = call(&mut state, &MiniEvm, &s, &s, None, MAX_CALL_DEPTH, &a, &[], true).result;
    assert_eq!(r, Err(EvmError::CallDepthExceeded));
    assert_eq!(state, before);
    let r = call(&mut state, &MiniEvm, &s, &s, None, MAX_CALL_DEPTH - 1, &a, &[], true).result;
    assert_eq!(r, Ok(Vec::new()));
}

#[test]
fn call_with_more_gas_left_than_prepaid_is_unknown_error() {
    let s = sender();
    let a = contract_a();
    let mut state = ledger_with(&[(a, vec![STOP])]);
    let before = state.clone();
    let r = call(&mut state, &Overspend, &s, &s, None, 0, &a, &[], true).result;
    assert_eq!(r, Err(EvmError::UnknownError));
    assert_eq!(state, before);
}

#[test]
fn call_whose_engine_fails_after_writing_commits_nothing() {
    let s = sender();
    let a = contract_a();
    let mut state = ledger_with(&[(a, vec![STOP])]);
    let before = state.clone();
    let r = call(&mut state, &WriteThenFail, &s, &s, None, 0, &a, &[], true).result;
    assert_eq!(r, Err(EvmError::UnknownError));
    assert_eq!(state, before);
}

#[test]
fn static_call_that_stores_fails_and_leaves_slot() {
    let s = sender();
    let a = contract_a();
    let mut state = ledger_with(&[(a, store(5, 9))]);
    state.write_storage(&a, &slot(5), slot(1));
    let before = state.clone();
    let r = static_call(&mut state, &MiniEvm, &s, &s, 0, &a, &[]).result;
    assert_eq!(r, Err(EvmError::UnknownError));
    assert_eq!(state, before);
    assert_eq!(state.read_contract_storage(&a, &slot(5)), Ok(Some(slot(1))));
}

#[test]
fn static_call_that_only_reads_returns_output() {
    let s = sender();
    let a = contract_a();
    // SLOAD slot 5, MSTORE at 0, RETURN 32 bytes
    let code = vec![PUSH1, 5, SLOAD, PUSH1, 0, MSTORE, PUSH1, 32, PUSH1, 0, RETURN];
    let mut state = ledger_with(&[(a, code)]);
    state.write_storage(&a, &slot(5), slot(77));
    let before = state.clone();
    let r = static_call(&mut state, &MiniEvm, &s, &s, 0, &a, &[]).result;
    assert_eq!(r, Ok(word_of(77).to_vec()));
    assert_eq!(state, before);
}

#[test]
fn delegate_call_writes_under_context_address() {
    let s = sender();
    let c = contract_a();
    let d = contract_b();
    let mut state = ledger_with(&[(d, store(5, 9))]);
    let r = delegate_call(&mut state, &MiniEvm, &s, &s, 0, &c, &d, &[]).result;
    assert_eq!(r, Ok(Vec::new()));
    assert_eq!(state.read_contract_storage(&c, &slot(5)), Ok(Some(slot(9))));
    assert_eq!(state.read_contract_storage(&d, &slot(5)), Ok(None));
}

#[test]
fn delegate_call_that_reverts_changes_nothing() {
    let s = sender();
    let c = contract_a();
    let d = contract_b();
    let mut code = store(5, 9);
    code.extend(nope_then(REVERT));
    let mut state = ledger_with(&[(d, code)]);
    let before = state.clone();
    let r = delegate_call(&mut state, &MiniEvm, &s, &s, 0, &c, &d, &[]).result;
    assert_eq!(r, Err(EvmError::Revert("6e6f7065".to_string())));
    assert_eq!(state, before);
}

/// `A`: store slot 1, call `B`, store the call's flag in slot 3.
fn caller_code(op: u8, b: &Address) -> Vec<u8> {
    let mut code = store(1, 1);
    code.extend(call_to(op, b));
    code.extend_from_slice(&[PUSH1, 3, SSTORE, STOP]);
    code
}

#[test]
fn nested_revert_is_seen_and_its_writes_are_dropped() {
    let s = sender();
    let a = contract_a();
    let b = contract_b();
    let mut b_code = store(2, 2);
    b_code.extend(nope_then(REVERT));
    let mut state = ledger_with(&[(a, caller_code(CALL, &b)), (b, b_code)]);
    let r = call(&mut state, &MiniEvm, &s, &s, None, 0, &a, &[], true).result;
    assert_eq!(r, Ok(Vec::new()));
    assert_eq!(state.read_contract_storage(&a, &slot(1)), Ok(Some(slot(1))));
    assert_eq!(state.read_contract_storage(&a, &slot(3)), Ok(Some(slot(0))));
    assert_eq!(state.read_contract_storage(&b, &slot(2)), Ok(None));
}

#[test]
fn nested_success_is_committed_with_its_caller() {
    let s = sender();
    let a = contract_a();
    let b = contract_b();
    let mut b_code = store(2, 2);
    b_code.push(STOP);
    let mut state = ledger_with(&[(a, caller_code(CALL, &b)), (b, b_code)]);
    let r = call(&mut state, &MiniEvm, &s, &s, None, 0, &a, &[], true).result;
    assert_eq!(r, Ok(Vec::new()));
    assert_eq!(state.read_contract_storage(&a, &slot(3)), Ok(Some(slot(1))));
    assert_eq!(state.read_contract_storage(&b, &slot(2)), Ok(Some(slot(2))));
}

#[test]
fn outer_revert_drops_nested_success() {
    let s = sender();
    let a = contract_a();
    let b = contract_b();
    let mut a_code = call_to(CALL, &b);
    a_code.extend(nope_then(REVERT));
    let mut b_code = store(2, 2);
    b_code.push(STOP);
    let mut state = ledger_with(&[(a, a_code), (b, b_code)]);
    let before = state.clone();
    let r = call(&mut state, &MiniEvm, &s, &s, None, 0, &a, &[], true).result;
    assert_eq!(r, Err(EvmError::Revert("6e6f7065".to_string())));
    assert_eq!(state, before);
}

#[test]
fn nested_static_call_cannot_store() {
    let s = sender();
    let a = contract_a();
    let b = contract_b();
    let mut b_code = store(2, 2);
    b_code.push(STOP);
    let mut state = ledger_with(&[(a, caller_code(STATICCALL, &b)), (b, b_code)]);
    let r = call(&mut state, &MiniEvm, &s, &s, None, 0, &a, &[], true).result;
    assert_eq!(r, Ok(Vec::new()));
    assert_eq!(state.read_contract_storage(&a, &slot(3)), Ok(Some(slot(0))));
    assert_eq!(state.read_contract_storage(&b, &slot(2)), Ok(None));
}

#[test]
fn nested_delegate_call_writes_under_caller() {
    let s = sender();
    let a = contract_a();
    let b = contract_b();
    let mut b_code = store(2, 2);
    b_code.push(STOP);
    let mut state = ledger_with(&[(a, caller_code(DELEGATECALL, &b)), (b, b_code)]);
    let r = call(&mut state, &MiniEvm, &s, &s, None, 0, &a, &[], true).result;
    assert_eq!(r, Ok(Vec::new()));
    assert_eq!(state.read_contract_storage(&a, &slot(2)), Ok(Some(slot(2))));
    assert_eq!(state.read_contract_storage(&a, &slot(3)), Ok(Some(slot(1))));
    assert_eq!(state.read_contract_storage(&b, &slot(2)), Ok(None));
}

#[test]
fn nested_call_sees_writes_of_its_caller() {
    let s = sender();
    let a = contract_a();
    let b = contract_b();
    // B copies slot 1 of A, which it reaches by a delegate call's context, into slot 4.
    let b_code = vec![PUSH1, 1, SLOAD, PUSH1, 4, SSTORE, STOP];
    let mut state = ledger_with(&[(a, caller_code(DELEGATECALL, &b)), (b, b_code)]);
    let r = call(&mut state, &MiniEvm, &s, &s, None, 0, &a, &[], true).result;
    assert_eq!(r, Ok(Vec::new()));
    assert_eq!(state.read_contract_storage(&a, &slot(4)), Ok(Some(slot(1))));
}

#[test]
fn run_and_commit_static_never_commits() {
    let s = sender();
    let a = contract_a();
    let mut state = ledger_with(&[(a, vec![STOP])]);
    let before = state.clone();
    let r = run_and_commit_if_success(
        &mut state,
        &MiniEvm,
        &s,
        &s,
        None,
        0,
        CallType::StaticCall,
        &a,
        &a,
        &[],
        true,
        true,
    ).result;
    assert_eq!(r, Ok(Vec::new()));
    assert_eq!(state, before);
}

#[test]
fn host_binding_refuses_writes_when_static() {
    let state = StateStore::new();
    let a = contract_a();
    let view = SubState::new(&a, StateStore::new(), Parent::Backing(&state));
    let mut ext = NearExt::new(a, a, view, 1, true);
    assert!(ext.is_static());
    assert_eq!(ext.depth(), 1);
    assert_eq!(ext.set_storage(slot(1), slot(2)), Err(EvmError::MutableCallInStaticContext));
    assert_eq!(
        ext.transfer(&contract_b(), U256::zero()),
        Err(EvmError::MutableCallInStaticContext)
    );
    let r = ext.call(&MiniEvm, &a, &contract_b(), None, &[], &contract_b(), CallType::Call);
    assert_eq!(r, MessageCallResult::Failed);
    assert_eq!(ext.storage_at(&slot(1)), Ok(H256::zero()));
    assert_eq!(ext.into_store(), StateStore::new());
}

#[test]
fn host_binding_buffers_writes_when_not_static() {
    let mut state = StateStore::new();
    let a = contract_a();
    state.write_balance(&a, U256::from_u64(9));
    let view = SubState::new(&a, StateStore::new(), Parent::Backing(&state));
    let mut ext = NearExt::new(a, sender(), view, 1, false);
    assert_eq!(ext.gas_limit(), U256::from_u128(PREPAID_GAS));
    assert_eq!(ext.schedule().max_depth, 1024);
    assert_eq!(ext.context_address(), a);
    assert_eq!(ext.origin(), sender());
    assert_eq!(ext.set_storage(slot(1), slot(2)), Ok(()));
    assert_eq!(ext.storage_at(&slot(1)), Ok(slot(2)));
    assert_eq!(ext.transfer(&contract_b(), U256::from_u64(4)), Ok(()));
    assert_eq!(ext.balance(&a), Ok(U256::from_u64(5)));
    assert_eq!(ext.balance(&contract_b()), Ok(U256::from_u64(4)));
    assert_eq!(ext.origin_balance(), Ok(U256::zero()));
    assert_eq!(ext.transfer(&contract_b(), U256::from_u64(6)), Err(EvmError::InsufficientFunds));
    assert_eq!(ext.extcode(&a), Ok(None));
    let writes = ext.into_store();
    assert_eq!(writes.read_contract_storage(&a, &slot(1)), Ok(Some(slot(2))));
    assert_eq!(state.read_contract_storage(&a, &slot(1)), Ok(None));
    assert_eq!(state.balance_of(&a), Ok(U256::from_u64(9)));
}

#[test]
fn nested_create_deploys_at_address_of_context_nonce() {
    let s = sender();
    let a = contract_a();
    let mut state = ledger_with(&[(a, vec![STOP])]);
    state.write_balance(&a, U256::from_u64(10));
    let created = addr("3c952d36207c0d52743a646e7ac2649009bd358e");
    let r = call(&mut state, &Creator, &s, &s, None, 0, &a, &[], true).result;
    assert_eq!(r, Ok(created.bytes.to_vec()));
    assert_eq!(state.code_at(&created), Ok(Some(vec![0xaa])));
    assert_eq!(state.nonce_of(&a), Ok(U256::from_u64(1)));
    assert_eq!(state.balance_of(&a), Ok(U256::from_u64(8)));
    assert_eq!(state.balance_of(&created), Ok(U256::from_u64(2)));
}

#[test]
fn nested_create_without_funds_creates_nothing() {
    let s = sender();
    let a = contract_a();
    let mut state = ledger_with(&[(a, vec![STOP])]);
    state.write_balance(&a, U256::from_u64(1));
    let before = state.clone();
    let r = call(&mut state, &Creator, &s, &s, None, 0, &a, &[], true).result;
    assert_eq!(r, Err(EvmError::Revert(String::new())));
    assert_eq!(state, before);
}

#[test]
fn nested_create_under_static_call_is_refused() {
    let s = sender();
    let a = contract_a();
    let mut state = ledger_with(&[(a, vec![STOP])]);
    state.write_balance(&a, U256::from_u64(10));
    let before = state.clone();
    let r = static_call(&mut state, &Creator, &s, &s, 0, &a, &[]).result;
    assert_eq!(r, Err(EvmError::Revert(String::new())));
    assert_eq!(state, before);
}

#[test]
fn nested_create_at_address_with_code_is_refused() {
    let s = sender();
    let a = contract_a();
    let taken = addr("3c952d36207c0d52743a646e7ac2649009bd358e");
    let mut state = ledger_with(&[(a, vec![STOP]), (taken, vec![1])]);
    state.write_balance(&a, U256::from_u64(10));
    let before = state.clone();
    let r = call(&mut state, &Creator, &s, &s, None, 0, &a, &[], true).result;
    assert_eq!(r, Err(EvmError::Revert(String::new())));
    assert_eq!(state, before);
}

#[test]
fn nested_call_reports_reason_and_gas_left_of_a_revert() {
    let a = contract_a();
    let b = contract_b();
    let state = ledger_with(&[(b, nope_then(REVERT))]);
    let view = SubState::new(&a, StateStore::new(), Parent::Backing(&state));
    let mut ext = NearExt::new(a, a, view, 1, false);
    assert_eq!(ext.set_storage(slot(1), slot(1)), Ok(()));
    let r = ext.call(&MiniEvm, &a, &b, None, &[], &b, CallType::Call);
    assert_eq!(r, MessageCallResult::Reverted(U256::from_u64(999_999_999_994), b"nope".to_vec()));
    let mut expected = StateStore::new();
    expected.write_storage(&a, &slot(1), slot(1));
    assert_eq!(ext.into_store(), expected);
}

#[test]
fn nested_call_reports_output_and_takes_in_the_writes() {
    let a = contract_a();
    let b = contract_b();
    let mut code = store(5, 9);
    code.extend(nope_then(RETURN));
    let state = ledger_with(&[(b, code)]);
    let view = SubState::new(&a, StateStore::new(), Parent::Backing(&state));
    let mut ext = NearExt::new(a, a, view, 1, false);
    let r = ext.call(&MiniEvm, &a, &b, None, &[], &b, CallType::Call);
    assert_eq!(r, MessageCallResult::Success(U256::from_u64(999_999_999_991), b"nope".to_vec()));
    let writes = ext.into_store();
    assert_eq!(writes.written_storage(&b, &slot(5)), Some(slot(9)));
    assert_eq!(state.read_contract_storage(&b, &slot(5)), Ok(None));
}

#[test]
fn nested_call_whose_value_cannot_move_is_not_made() {
    let a = contract_a();
    let b = contract_b();
    let mut state = ledger_with(&[(b, store(5, 9))]);
    state.write_balance(&a, U256::from_u64(4));
    let view = SubState::new(&a, StateStore::new(), Parent::Backing(&state));
    let mut ext = NearExt::new(a, a, view, 1, false);
    let r = ext.call(&MiniEvm, &a, &b, Some(U256::from_u64(5)), &[], &b, CallType::Call);
    assert_eq!(r, MessageCallResult::Failed);
    let r = ext.call(&MiniEvm, &a, &b, Some(U256::from_u64(4)), &[], &b, CallType::Call);
    assert_eq!(r, MessageCallResult::Success(U256::from_u64(999_999_999_997), Vec::new()));
    assert_eq!(ext.balance(&a), Ok(U256::zero()));
    assert_eq!(ext.balance(&b), Ok(U256::from_u64(4)));
}

#[test]
fn nested_call_at_greatest_depth_or_of_creation_kind_is_not_made() {
    let a = contract_a();
    let b = contract_b();
    let state = ledger_with(&[(b, store(5, 9))]);
    let view = SubState::new(&a, StateStore::new(), Parent::Backing(&state));
    let mut ext = NearExt::new(a, a, view, MAX_CALL_DEPTH, false);
    let r = ext.call(&MiniEvm, &a, &b, None, &[], &b, CallType::Call);
    assert_eq!(r, MessageCallResult::Failed);
    assert_eq!(ext.into_store(), StateStore::new());
    let view = SubState::new(&a, StateStore::new(), Parent::Backing(&state));
    let mut ext = NearExt::new(a, a, view, 1, false);
    let r = ext.call(&MiniEvm, &a, &b, None, &[], &b, CallType::Create);
    assert_eq!(r, MessageCallResult::Failed);
    assert_eq!(ext.into_store(), StateStore::new());
}

#[test]
fn nested_create_that_reverts_leaves_only_the_taken_nonce() {
    let a = contract_a();
    let mut state = StateStore::new();
    state.write_balance(&a, U256::from_u64(10));
    let view = SubState::new(&a, StateStore::new(), Parent::Backing(&state));
    let mut ext = NearExt::new(a, a, view, 1, false);
    let mut code = store(1, 1);
    code.extend(nope_then(REVERT));
    let mode = CreateContractAddress::FromSenderAndNonce;
    let r = ext.create(&MiniEvm, U256::from_u64(3), &code, mode);
    assert_eq!(r, ContractCreateResult::Reverted(U256::from_u64(999_999_999_991), b"nope".to_vec()));
    let mut expected = StateStore::new();
    expected.write_nonce(&a, U256::from_u64(1));
    assert_eq!(ext.into_store(), expected);
}

#[test]
fn nested_create_reports_address_and_buffers_code_and_writes() {
    let a = contract_a();
    let mut state = StateStore::new();
    state.write_balance(&a, U256::from_u64(10));
    let view = SubState::new(&a, StateStore::new(), Parent::Backing(&state));
    let mut ext = NearExt::new(a, a, view, 1, false);
    let mut code = store(1, 1);
    code.extend(nope_then(RETURN));
    let mode = CreateContractAddress::FromSenderAndNonce;
    let created = addr("3c952d36207c0d52743a646e7ac2649009bd358e");
    let r = ext.create(&MiniEvm, U256::from_u64(3), &code, mode);
    assert_eq!(r, ContractCreateResult::Created(created, U256::from_u64(999_999_999_991)));
    assert_eq!(ext.extcode(&created), Ok(Some(b"nope".to_vec())));
    assert_eq!(ext.balance(&created), Ok(U256::from_u64(3)));
    assert_eq!(ext.balance(&a), Ok(U256::from_u64(7)));
    let writes = ext.into_store();
    assert_eq!(writes.written_nonce(&a), Some(U256::from_u64(1)));
    assert_eq!(writes.written_storage(&created, &slot(1)), Some(slot(1)));
    assert_eq!(state.code_at(&created), Ok(None));
}

#[test]
fn nested_create_at_greatest_depth_is_not_made() {
    let a = contract_a();
    let mut state = StateStore::new();
    state.write_balance(&a, U256::from_u64(10));
    let view = SubState::new(&a, StateStore::new(), Parent::Backing(&state));
    let mut ext = NearExt::new(a, a, view, MAX_CALL_DEPTH, false);
    let mode = CreateContractAddress::FromSenderAndCodeHash;
    let r = ext.create(&MiniEvm, U256::zero(), &[STOP], mode);
    assert_eq!(r, ContractCreateResult::Failed);
    assert_eq!(ext.into_store(), StateStore::new());
}

#[test]
fn call_with_value_seven_from_balance_five_is_insufficient_funds() {
    let s = Address::new([1u8; 20]);
    let a = Address::new([2u8; 20]);
    let mut state = ledger_with(&[(a, vec![STOP])]);
    state.write_balance(&s, U256::from_u64(5));
    let before = state.clone();
    let r = call(&mut state, &MiniEvm, &s, &s, Some(U256::from_u64(7)), 0, &a, &[], true).result;
    assert_eq!(r, Err(EvmError::InsufficientFunds));
    assert_eq!(state.balance_of(&s), Ok(U256::from_u64(5)));
    assert_eq!(state.balance_of(&a), Ok(U256::zero()));
    assert_eq!(state, before);
}

#[test]
fn deploy_with_value_above_balance_is_insufficient_funds() {
    let s = sender();
    let mut state = StateStore::new();
    state.write_balance(&s, U256::from_u64(5));
    let mode = CreateContractAddress::FromSenderAndCodeHash;
    let before = state.clone();
    let r = deploy_code(&mut state, &MiniEvm, &s, &s, U256::from_u64(7), 0, mode, false, &[STOP]).result;
    assert_eq!(r, Err(EvmError::InsufficientFunds));
    assert_eq!(state, before);
}

#[test]
fn deploy_at_greatest_depth_is_refused_after_the_address_is_prepared() {
    let s = sender();
    let mode = CreateContractAddress::FromSenderAndCodeHash;
    let target = addr("cc208393eeb5a2ac72610decd2eed55fe225e66d");
    let mut state = ledger_with(&[(target, vec![1, 2, 3])]);
    let r = deploy_code(
        &mut state,
        &MiniEvm,
        &s,
        &s,
        U256::zero(),
        MAX_CALL_DEPTH,
        mode,
        true,
        &[STOP],
    ).result;
    assert_eq!(r, Err(EvmError::CallDepthExceeded));
    assert_eq!(state.code_at(&target), Ok(None));
}

/// A ledger whose every operation fails.
struct Broken;

impl EvmState for Broken {
    fn ledger(&self) -> Ledger {
        unreachable!("only proofs speak of what a ledger holds")
    }

    fn code_at(&self, _: &Address) -> Result<Option<Vec<u8>>, StateError> {
        Err(broken())
    }

    fn balance_of(&self, _: &Address) -> Result<U256, StateError> {
        Err(broken())
    }

    fn nonce_of(&self, _: &Address) -> Result<U256, StateError> {
        Err(broken())
    }

    fn read_contract_storage(&self, _: &Address, _: &H256) -> Result<Option<H256>, StateError> {
        Err(broken())
    }

    fn next_nonce(&mut self, _: &Address) -> Result<U256, StateError> {
        Err(broken())
    }

    fn set_code(&mut self, _: &Address, _: &[u8]) -> Result<(), StateError> {
        Err(broken())
    }

    fn recreate(&mut self, _: &Address) {}

    fn commit_changes(&mut self, _: &StateStore) -> Result<(), StateError> {
        Err(broken())
    }
}

fn broken() -> StateError {
    StateError { message: "broken".to_string() }
}

#[test]
fn buffered_entries_are_read_without_the_ledger() {
    let a = contract_a();
    let b = contract_b();
    let mut writes = StateStore::new();
    writes.write_balance(&a, U256::from_u64(9));
    writes.write_balance(&b, U256::from_u64(1));
    writes.write_nonce(&a, U256::from_u64(3));
    writes.write_code(&a, vec![7]);
    writes.write_storage(&a, &slot(1), slot(2));
    let mut view = SubState::new(&a, writes.clone(), Parent::Backing(&Broken));
    assert_eq!(view.next_nonce(&a), Ok(U256::from_u64(3)));
    assert_eq!(view.transfer_balance(&a, &b, U256::from_u64(4)), Ok(()));
    assert_eq!(view.next_nonce(&b), Err(EvmError::State(broken())));
    assert_eq!(view.transfer_balance(&a, &sender(), U256::from_u64(1)), Err(EvmError::State(broken())));
    let mut ext = NearExt::new(a, b, SubState::new(&a, writes, Parent::Backing(&Broken)), 1, false);
    assert_eq!(ext.balance(&a), Ok(U256::from_u64(9)));
    assert_eq!(ext.origin_balance(), Ok(U256::from_u64(1)));
    assert_eq!(ext.extcode(&a), Ok(Some(vec![7])));
    assert_eq!(ext.storage_at(&slot(1)), Ok(slot(2)));
    assert_eq!(ext.transfer(&b, U256::from_u64(9)), Ok(()));
    assert_eq!(ext.balance(&b), Ok(U256::from_u64(10)));
    assert_eq!(ext.balance(&sender()), Err(EvmError::State(broken())));
    assert_eq!(ext.extcode(&b), Err(EvmError::State(broken())));
    assert_eq!(ext.transfer(&sender(), U256::zero()), Err(EvmError::State(broken())));
}

#[test]
fn failing_ledger_is_reported_as_such() {
    let s = sender();
    let a = contract_a();
    let mut state = Broken;
    let r = call(&mut state, &MiniEvm, &s, &s, None, 0, &a, &[], true).result;
    assert_eq!(r, Err(EvmError::State(broken())));
    let r = call(&mut state, &MiniEvm, &s, &s, None, MAX_CALL_DEPTH, &a, &[], true).result;
    assert_eq!(r, Err(EvmError::CallDepthExceeded));
    let mode = CreateContractAddress::FromSenderAndNonce;
    let r = deploy_code(&mut state, &MiniEvm, &s, &s, U256::zero(), 0, mode, true, &[STOP]).result;
    assert_eq!(r, Err(EvmError::State(broken())));
}

#[test]
fn receipt_reports_gas_used_for_success_and_revert_alike() {
    let s = sender();
    let a = contract_a();
    let b = contract_b();
    let mut code = store(5, 9);
    code.extend(nope_then(RETURN));
    let mut state = ledger_with(&[(a, code), (b, nope_then(REVERT))]);
    for should_commit in [false, true] {
        let r = call(&mut state, &MiniEvm, &s, &s, None, 0, &a, &[], should_commit);
        assert_eq!(r.gas_used, Some(U256::from_u64(9)));
        assert_eq!(r.result, Ok(b"nope".to_vec()));
    }
    let r = call(&mut state, &MiniEvm, &s, &s, None, 0, &b, &[], true);
    assert_eq!(r.gas_used, Some(U256::from_u64(6)));
    let r = static_call(&mut state, &MiniEvm, &s, &s, 0, &b, &[]);
    assert_eq!(r.gas_used, Some(U256::from_u64(6)));
    let r = delegate_call(&mut state, &MiniEvm, &s, &s, 0, &b, &a, &[]);
    assert_eq!(r.gas_used, Some(U256::from_u64(9)));
    let r = call(&mut state, &MiniEvm, &s, &s, None, 0, &s, &[], true);
    assert_eq!(r.gas_used, Some(U256::zero()));
}

#[test]
fn receipt_reports_no_gas_where_no_outcome_is_classified() {
    let s = sender();
    let a = contract_a();
    let mut state = ledger_with(&[(a, vec![0xfe])]);
    let r = call(&mut state, &MiniEvm, &s, &s, None, 0, &a, &[], true);
    assert_eq!(r.gas_used, None);
    let r = call(&mut state, &Overspend, &s, &s, None, 0, &a, &[], true);
    assert_eq!(r.gas_used, None);
    let r = call(&mut state, &MiniEvm, &s, &s, None, MAX_CALL_DEPTH, &a, &[], true);
    assert_eq!(r.gas_used, None);
    let r = call(&mut state, &MiniEvm, &s, &s, Some(U256::from_u64(1)), 0, &a, &[], true);
    assert_eq!(r.gas_used, None);
    assert_eq!(r.result, Err(EvmError::InsufficientFunds));
}

#[test]
fn deployment_receipt_reports_gas_used() {
    let s = sender();
    let mut state = StateStore::new();
    let mode = CreateContractAddress::FromSenderAndNonce;
    let r = deploy_code(&mut state, &MiniEvm, &s, &s, U256::zero(), 0, mode, false, &[STOP]);
    assert_eq!(r.gas_used, Some(U256::from_u64(1)));
    let r =
        deploy_code(&mut state, &MiniEvm, &s, &s, U256::zero(), 0, mode, false, &nope_then(REVERT));
    assert_eq!(r.gas_used, Some(U256::from_u64(6)));
    assert_eq!(r.result, Err(EvmError::DeployFail("6e6f7065".to_string())));
    let r = deploy_code(&mut state, &MiniEvm, &s, &s, U256::zero(), 0, mode, false, &[0xfe]);
    assert_eq!(r.gas_used, None);
    let mode = CreateContractAddress::FromSenderAndCodeHash;
    deploy_code(&mut state, &MiniEvm, &s, &s, U256::zero(), 0, mode, false, &[STOP]).result.unwrap();
    let r = deploy_code(&mut state, &MiniEvm, &s, &s, U256::zero(), 0, mode, false, &[STOP]);
    assert_eq!(r.gas_used, None);
}
