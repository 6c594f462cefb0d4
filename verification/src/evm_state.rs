//! The backing ledger as the orchestration layer needs it, and the buffer of
//! writes that stands between an execution and that ledger.
use crate::errors::{EvmError, StateError};
use crate::ledger::{
    lemma_log_map_concat, lemma_log_map_push, log_map, storage_without_account, Ledger,
};
use crate::types::{copy_bytes, Address, H256, U256};
use crate::uint::{checked_add, checked_sub};
use vstd::prelude::*;

verus! {

/// A log with each value replaced by its view.
pub open spec fn viewed<K, T: View>(log: Seq<(K, T)>) -> Seq<(K, T::V)> {
    log.map_values(|entry: (K, T)| (entry.0, entry.1@))
}

proof fn lemma_viewed_push<K, T: View>(log: Seq<(K, T)>, entry: (K, T))
    ensures
        log_map(viewed(log.push(entry))) == log_map(viewed(log)).insert(entry.0, entry.1@),
{
    assert(viewed(log.push(entry)) =~= viewed(log).push((entry.0, entry.1@)));
    lemma_log_map_push(viewed(log), (entry.0, entry.1@));
}

proof fn lemma_viewed_concat<K, T: View>(first: Seq<(K, T)>, second: Seq<(K, T)>)
    ensures
        log_map(viewed(first + second)) == log_map(viewed(first)).union_prefer_right(
            log_map(viewed(second)),
        ),
{
    assert(viewed(first + second) =~= viewed(first) + viewed(second));
    lemma_log_map_concat(viewed(first), viewed(second));
}

/// The code that a read returned, as a plain value.
pub open spec fn code_view(code: Option<Vec<u8>>) -> Option<Seq<u8>> {
    match code {
        Some(bytes) => Some(bytes@),
        None => None,
    }
}

/// The writes of one execution, buffered: four logs, in each of which a later
/// entry replaces an earlier one for the same key. Nothing in it reaches a
/// ledger until it is committed; dropping it undoes the execution.
#[derive(Clone, Debug, PartialEq, Eq)]
pub struct StateStore {
    pub balances: Vec<(Address, U256)>,
    pub nonces: Vec<(Address, U256)>,
    pub code: Vec<(Address, Vec<u8>)>,
    pub storages: Vec<((Address, H256), H256)>,
}

impl View for StateStore {
    type V = Ledger;

    /// The writes that the four logs stand for.
    open spec fn view(&self) -> Ledger {
        Ledger {
            balances: log_map(viewed(self.balances@)),
            nonces: log_map(viewed(self.nonces@)),
            code: log_map(viewed(self.code@)),
            storage: log_map(self.storages@),
        }
    }
}

impl Default for StateStore {
    /// A buffer with no writes in it.
    fn default() -> (r: StateStore)
        ensures
            r@ == Ledger::empty(),
    {
        StateStore::new()
    }
}

/// The amount last written for `a` in a log of amounts, if any.
fn find_amount(log: &Vec<(Address, U256)>, a: &Address) -> (r: Option<U256>)
    ensures
        match r {
            Some(amount) => log_map(viewed(log@)).dom().contains(*a) && log_map(viewed(log@))[*a]
                == amount@,
            None => !log_map(viewed(log@)).dom().contains(*a),
        },
{
    let mut found: Option<U256> = None;
    let mut i: usize = 0;
    while i < log.len()
        invariant
            i <= log.len(),
            match found {
                Some(amount) => log_map(viewed(log@.take(i as int))).dom().contains(*a) && log_map(
                    viewed(log@.take(i as int)),
                )[*a] == amount@,
                None => !log_map(viewed(log@.take(i as int))).dom().contains(*a),
            },
        decreases log.len() - i,
    {
        if log[i].0.equals(a) {
            found = Some(log[i].1);
        }
        proof {
            assert(log@.take(i + 1) =~= log@.take(i as int).push(log@[i as int]));
            lemma_viewed_push(log@.take(i as int), log@[i as int]);
        }
        i += 1;
    }
    assert(log@.take(log.len() as int) =~= log@);
    found
}

impl StateStore {
    /// A buffer with no writes in it.
    pub fn new() -> (r: StateStore)
        ensures
            r@ == Ledger::empty(),
    {
        let r = StateStore {
            balances: Vec::new(),
            nonces: Vec::new(),
            code: Vec::new(),
            storages: Vec::new(),
        };
        assert(viewed(r.balances@) =~= Seq::empty());
        assert(viewed(r.nonces@) =~= Seq::empty());
        assert(viewed(r.code@) =~= Seq::empty());
        assert(r@ =~= Ledger::empty());
        r
    }

    /// The balance buffered for `a`, if one was written.
    pub fn written_balance(&self, a: &Address) -> (r: Option<U256>)
        ensures
            match r {
                Some(amount) => self@.balances.dom().contains(*a) && self@.balances[*a] == amount@,
                None => !self@.balances.dom().contains(*a),
            },
    {
        find_amount(&self.balances, a)
    }

    /// The nonce buffered for `a`, if one was written.
    pub fn written_nonce(&self, a: &Address) -> (r: Option<U256>)
        ensures
            match r {
                Some(nonce) => self@.nonces.dom().contains(*a) && self@.nonces[*a] == nonce@,
                None => !self@.nonces.dom().contains(*a),
            },
    {
        find_amount(&self.nonces, a)
    }

    /// The code buffered for `a`, if any was written.
    pub fn written_code(&self, a: &Address) -> (r: Option<Vec<u8>>)
        ensures
            match r {
                Some(code) => self@.code.dom().contains(*a) && self@.code[*a] == code@,
                None => !self@.code.dom().contains(*a),
            },
    {
        let mut found: Option<usize> = None;
        let mut i: usize = 0;
        while i < self.code.len()
            invariant
                i <= self.code.len(),
                match found {
                    Some(k) => k < i && log_map(viewed(self.code@.take(i as int))).dom().contains(*a)
                        && log_map(viewed(self.code@.take(i as int)))[*a] == self.code@[k as int].1@,
                    None => !log_map(viewed(self.code@.take(i as int))).dom().contains(*a),
                },
            decreases self.code.len() - i,
        {
            if self.code[i].0.equals(a) {
                found = Some(i);
            }
            proof {
                assert(self.code@.take(i + 1) =~= self.code@.take(i as int).push(
                    self.code@[i as int],
                ));
                lemma_viewed_push(self.code@.take(i as int), self.code@[i as int]);
            }
            i += 1;
        }
        assert(self.code@.take(self.code.len() as int) =~= self.code@);
        match found {
            Some(k) => Some(copy_bytes(self.code[k].1.as_slice())),
            None => None,
        }
    }

    /// The word buffered for slot `key` of `a`, if one was written.
    pub fn written_storage(&self, a: &Address, key: &H256) -> (r: Option<H256>)
        ensures
            match r {
                Some(word) => self@.storage.dom().contains((*a, *key)) && self@.storage[(*a, *key)]
                    == word,
                None => !self@.storage.dom().contains((*a, *key)),
            },
    {
        let mut found: Option<H256> = None;
        let mut i: usize = 0;
        while i < self.storages.len()
            invariant
                i <= self.storages.len(),
                match found {
                    Some(word) => log_map(self.storages@.take(i as int)).dom().contains((*a, *key))
                        && log_map(self.storages@.take(i as int))[(*a, *key)] == word,
                    None => !log_map(self.storages@.take(i as int)).dom().contains((*a, *key)),
                },
            decreases self.storages.len() - i,
        {
            if self.storages[i].0.0.equals(a) && self.storages[i].0.1.equals(key) {
                found = Some(self.storages[i].1);
            }
            proof {
                assert(self.storages@.take(i + 1) =~= self.storages@.take(i as int).push(
                    self.storages@[i as int],
                ));
                lemma_log_map_push(self.storages@.take(i as int), self.storages@[i as int]);
            }
            i += 1;
        }
        assert(self.storages@.take(self.storages.len() as int) =~= self.storages@);
        found
    }

    /// Buffers `amount` as the balance of `a`.
    pub fn write_balance(&mut self, a: &Address, amount: U256)
        ensures
            final(self)@ == old(self)@.with_balance(*a, amount@),
    {
        proof {
            lemma_viewed_push(self.balances@, (*a, amount));
        }
        self.balances.push((*a, amount));
    }

    /// Buffers `nonce` as the nonce of `a`.
    pub fn write_nonce(&mut self, a: &Address, nonce: U256)
        ensures
            final(self)@ == old(self)@.with_nonce(*a, nonce@),
    {
        proof {
            lemma_viewed_push(self.nonces@, (*a, nonce));
        }
        self.nonces.push((*a, nonce));
    }

    /// Buffers `code` as the code of `a`.
    pub fn write_code(&mut self, a: &Address, code: Vec<u8>)
        ensures
            final(self)@ == old(self)@.with_code(*a, code@),
    {
        proof {
            lemma_viewed_push(self.code@, (*a, code));
        }
        self.code.push((*a, code));
    }

    /// Buffers `value` as the word in slot `key` of `a`.
    pub fn write_storage(&mut self, a: &Address, key: &H256, value: H256)
        ensures
            final(self)@ == old(self)@.with_storage(*a, *key, value),
    {
        proof {
            lemma_log_map_push(self.storages@, ((*a, *key), value));
        }
        self.storages.push(((*a, *key), value));
    }

    /// Takes the writes of `other` into this buffer, on top of its own: what
    /// a nested execution wrote becomes part of what its caller wrote.
    pub fn merge(&mut self, other: StateStore)
        ensures
            final(self)@ == old(self)@.apply(other@),
    {
        let mut other = other;
        proof {
            lemma_viewed_concat(self.balances@, other.balances@);
            lemma_viewed_concat(self.nonces@, other.nonces@);
            lemma_viewed_concat(self.code@, other.code@);
            lemma_log_map_concat(self.storages@, other.storages@);
        }
        self.balances.append(&mut other.balances);
        self.nonces.append(&mut other.nonces);
        self.code.append(&mut other.code);
        self.storages.append(&mut other.storages);
    }
}

/// The backing ledger, as far as the orchestration layer reads and changes
/// it. An implementation says what it holds through `ledger`, and each
/// operation that reports success has done what its contract says to that
/// ledger; of an operation that reports a failure nothing is assumed.
pub trait EvmState {
    /// What the ledger holds.
    spec fn ledger(&self) -> Ledger;

    /// The code at `address`, if it has any.
    fn code_at(&self, address: &Address) -> (r: Result<Option<Vec<u8>>, StateError>)
        ensures
            r matches Ok(code) ==> code_view(code) == self.ledger().code_at(*address),
    ;

    /// The balance of `address`.
    fn balance_of(&self, address: &Address) -> (r: Result<U256, StateError>)
        ensures
            r matches Ok(amount) ==> amount@ == self.ledger().balance_of(*address),
    ;

    /// The nonce of `address`.
    fn nonce_of(&self, address: &Address) -> (r: Result<U256, StateError>)
        ensures
            r matches Ok(nonce) ==> nonce@ == self.ledger().nonce_of(*address),
    ;

    /// The word in slot `key` of the storage of `address`, if it was written.
    fn read_contract_storage(&self, address: &Address, key: &H256) -> (r: Result<
        Option<H256>,
        StateError,
    >)
        ensures
            r matches Ok(word) ==> word == self.ledger().storage_at(*address, *key),
    ;

    /// Hands out the current nonce of `address` and moves the account on to
    /// the next one.
    fn next_nonce(&mut self, address: &Address) -> (r: Result<U256, StateError>)
        ensures
            r matches Ok(nonce) ==> nonce@ == old(self).ledger().nonce_of(*address),
            r matches Ok(nonce) ==> final(self).ledger() == old(self).ledger().with_nonce(
                *address,
                nonce@ + 1,
            ),
    ;

    /// Stores `code` as the code of `address`.
    fn set_code(&mut self, address: &Address, code: &[u8]) -> (r: Result<(), StateError>)
        ensures
            r is Ok ==> final(self).ledger() == old(self).ledger().with_code(*address, code@),
    ;

    /// Reinitialises `address`: its code and its storage are cleared.
    fn recreate(&mut self, address: &Address)
        ensures
            final(self).ledger() == old(self).ledger().recreated(*address),
    ;

    /// Applies every buffered write of `other` to the ledger.
    fn commit_changes(&mut self, other: &StateStore) -> (r: Result<(), StateError>)
        ensures
            r is Ok ==> final(self).ledger() == old(self).ledger().apply(other@),
    ;
}

/// Appends a copy of each entry of `source` to `target`.
fn extend_copied<T: Copy>(target: &mut Vec<T>, source: &Vec<T>)
    ensures
        final(target)@ == old(target)@ + source@,
{
    let mut i: usize = 0;
    while i < source.len()
        invariant
            i <= source.len(),
            target@ == old(target)@ + source@.take(i as int),
        decreases source.len() - i,
    {
        target.push(source[i]);
        assert(source@.take(i + 1) =~= source@.take(i as int).push(source@[i as int]));
        assert(target@ =~= old(target)@ + source@.take(i + 1));
        i += 1;
    }
    assert(source@.take(source.len() as int) =~= source@);
}

/// Appends a copy of each entry of the code log `source` to `target`.
fn extend_code(target: &mut Vec<(Address, Vec<u8>)>, source: &Vec<(Address, Vec<u8>)>)
    ensures
        viewed(final(target)@) == viewed(old(target)@) + viewed(source@),
{
    let mut i: usize = 0;
    assert(viewed(source@.take(0)) =~= Seq::empty());
    assert(viewed(target@) + Seq::empty() =~= viewed(target@));
    while i < source.len()
        invariant
            i <= source.len(),
            viewed(target@) == viewed(old(target)@) + viewed(source@.take(i as int)),
        decreases source.len() - i,
    {
        let code = copy_bytes(source[i].1.as_slice());
        let ghost before = target@;
        let ghost entry = (source@[i as int].0, code);
        target.push((source[i].0, code));
        assert(source@.take(i + 1) =~= source@.take(i as int).push(source@[i as int]));
        assert(viewed(before.push(entry)) =~= viewed(before).push((entry.0, entry.1@)));
        assert(viewed(source@.take(i + 1)) =~= viewed(source@.take(i as int)).push(
            (entry.0, entry.1@),
        ));
        assert(viewed(target@) =~= viewed(old(target)@) + viewed(source@.take(i + 1)));
        i += 1;
    }
    assert(source@.take(source.len() as int) =~= source@);
}

/// The code log `log` without the entries of `a`.
fn code_without(log: &Vec<(Address, Vec<u8>)>, a: &Address) -> (r: Vec<(Address, Vec<u8>)>)
    ensures
        log_map(viewed(r@)) == log_map(viewed(log@)).remove(*a),
{
    let mut out: Vec<(Address, Vec<u8>)> = Vec::new();
    let mut i: usize = 0;
    assert(viewed(out@) =~= Seq::empty());
    assert(viewed(log@.take(0)) =~= Seq::empty());
    assert(log_map(viewed(out@)) =~= log_map(viewed(log@.take(0))).remove(*a));
    while i < log.len()
        invariant
            i <= log.len(),
            log_map(viewed(out@)) == log_map(viewed(log@.take(i as int))).remove(*a),
        decreases log.len() - i,
    {
        proof {
            assert(log@.take(i + 1) =~= log@.take(i as int).push(log@[i as int]));
            lemma_viewed_push(log@.take(i as int), log@[i as int]);
        }
        if !log[i].0.equals(a) {
            let code = copy_bytes(log[i].1.as_slice());
            proof {
                lemma_viewed_push(out@, (log@[i as int].0, code));
            }
            out.push((log[i].0, code));
        }
        assert(log_map(viewed(out@)) =~= log_map(viewed(log@.take(i + 1))).remove(*a));
        i += 1;
    }
    assert(log@.take(log.len() as int) =~= log@);
    out
}

/// The storage log `log` without the entries of `a`.
fn storage_without(log: &Vec<((Address, H256), H256)>, a: &Address) -> (r: Vec<
    ((Address, H256), H256),
>)
    ensures
        log_map(r@) == storage_without_account(log_map(log@), *a),
{
    let mut out: Vec<((Address, H256), H256)> = Vec::new();
    let mut i: usize = 0;
    assert(log_map(out@) =~= storage_without_account(log_map(log@.take(0)), *a));
    while i < log.len()
        invariant
            i <= log.len(),
            log_map(out@) == storage_without_account(log_map(log@.take(i as int)), *a),
        decreases log.len() - i,
    {
        proof {
            assert(log@.take(i + 1) =~= log@.take(i as int).push(log@[i as int]));
            lemma_log_map_push(log@.take(i as int), log@[i as int]);
        }
        if !log[i].0.0.equals(a) {
            proof {
                lemma_log_map_push(out@, log@[i as int]);
            }
            out.push(log[i]);
        }
        assert(log_map(out@) =~= storage_without_account(log_map(log@.take(i + 1)), *a));
        i += 1;
    }
    assert(log@.take(log.len() as int) =~= log@);
    out
}

/// A buffer of writes is itself a small ledger, held in memory: it holds what
/// was written to it, and it never fails but where a nonce would pass 2^256.
impl EvmState for StateStore {
    open spec fn ledger(&self) -> Ledger {
        self@
    }

    fn code_at(&self, address: &Address) -> (r: Result<Option<Vec<u8>>, StateError>)
        ensures
            r is Ok,
    {
        Ok(self.written_code(address))
    }

    fn balance_of(&self, address: &Address) -> (r: Result<U256, StateError>)
        ensures
            r is Ok,
    {
        match self.written_balance(address) {
            Some(amount) => Ok(amount),
            None => Ok(U256::zero()),
        }
    }

    fn nonce_of(&self, address: &Address) -> (r: Result<U256, StateError>)
        ensures
            r is Ok,
    {
        match self.written_nonce(address) {
            Some(nonce) => Ok(nonce),
            None => Ok(U256::zero()),
        }
    }

    fn read_contract_storage(&self, address: &Address, key: &H256) -> (r: Result<
        Option<H256>,
        StateError,
    >)
        ensures
            r is Ok,
    {
        Ok(self.written_storage(address, key))
    }

    fn next_nonce(&mut self, address: &Address) -> (r: Result<U256, StateError>)
        ensures
            r is Ok <==> old(self)@.nonce_of(*address) + 1 < crate::types::u256_modulus(),
            r is Err ==> *final(self) == *old(self),
    {
        let nonce = match self.written_nonce(address) {
            Some(nonce) => nonce,
            None => U256::zero(),
        };
        match checked_add(&nonce, &U256::from_u64(1)) {
            Some(next) => {
                proof {
                    U256::lemma_bounded(next);
                }
                self.write_nonce(address, next);
                Ok(nonce)
            },
            None => Err(StateError { message: "nonce overflow".to_string() }),
        }
    }

    fn set_code(&mut self, address: &Address, code: &[u8]) -> (r: Result<(), StateError>)
        ensures
            r is Ok,
    {
        self.write_code(address, copy_bytes(code));
        Ok(())
    }

    fn recreate(&mut self, address: &Address) {
        self.code = code_without(&self.code, address);
        self.storages = storage_without(&self.storages, address);
        assert(self@ =~= old(self)@.recreated(*address));
    }

    fn commit_changes(&mut self, other: &StateStore) -> (r: Result<(), StateError>)
        ensures
            r is Ok,
    {
        proof {
            lemma_viewed_concat(self.balances@, other.balances@);
            lemma_viewed_concat(self.nonces@, other.nonces@);
            lemma_log_map_concat(viewed(self.code@), viewed(other.code@));
            lemma_log_map_concat(self.storages@, other.storages@);
        }
        extend_copied(&mut self.balances, &other.balances);
        extend_copied(&mut self.nonces, &other.nonces);
        extend_code(&mut self.code, &other.code);
        extend_copied(&mut self.storages, &other.storages);
        Ok(())
    }
}


/// What lies below a buffer of writes: the backing ledger itself, or the view
/// of the execution that made the nested call.
pub enum Parent<'a, S> {
    Backing(&'a S),
    Sub(&'a SubState<'a, S>),
}

/// The state as one execution sees it: its own buffered writes over what lies
/// below. Reads look in the buffer first and below it second; writes go to
/// the buffer and nowhere else, so what lies below can only be read.
pub struct SubState<'a, S> {
    /// The account on whose behalf the execution runs.
    pub msg_sender: Address,
    /// What the execution has written so far.
    pub store: StateStore,
    /// What the execution reads where it has written nothing.
    pub parent: Parent<'a, S>,
}

impl<'a, S: EvmState> Parent<'a, S> {
    /// What the layer below shows.
    pub open spec fn ledger(&self) -> Ledger
        decreases self,
    {
        match self {
            Parent::Backing(state) => state.ledger(),
            Parent::Sub(caller) => caller.ledger(),
        }
    }
}

impl<'a, S: EvmState> SubState<'a, S> {
    /// What this view shows: the ledger below with the buffered writes
    /// applied.
    pub open spec fn ledger(&self) -> Ledger
        decreases self,
    {
        self.parent.ledger().apply(self.store@)
    }

    /// A view of `parent` through the buffer `store`.
    pub fn new(msg_sender: &Address, store: StateStore, parent: Parent<'a, S>) -> (r: SubState<
        'a,
        S,
    >)
        ensures
            r.msg_sender == *msg_sender,
            r.store == store,
            r.parent == parent,
    {
        SubState { msg_sender: *msg_sender, store, parent }
    }

    /// Gives up the view and hands out its buffered writes.
    pub fn into_store(self) -> (r: StateStore)
        ensures
            r == self.store,
    {
        self.store
    }

    /// The balance of `a` as this execution sees it.
    pub fn balance_of(&self, a: &Address) -> (r: Result<U256, StateError>)
        ensures
            r matches Ok(amount) ==> amount@ == self.ledger().balance_of(*a),
            self.store@.balances.dom().contains(*a) ==> r is Ok,
        decreases self,
    {
        proof {
            self.parent.ledger().lemma_apply_reads(self.store@, *a, arbitrary());
        }
        match self.store.written_balance(a) {
            Some(amount) => Ok(amount),
            None => match &self.parent {
                Parent::Backing(state) => state.balance_of(a),
                Parent::Sub(caller) => caller.balance_of(a),
            },
        }
    }

    /// The nonce of `a` as this execution sees it.
    pub fn nonce_of(&self, a: &Address) -> (r: Result<U256, StateError>)
        ensures
            r matches Ok(nonce) ==> nonce@ == self.ledger().nonce_of(*a),
            self.store@.nonces.dom().contains(*a) ==> r is Ok,
        decreases self,
    {
        proof {
            self.parent.ledger().lemma_apply_reads(self.store@, *a, arbitrary());
        }
        match self.store.written_nonce(a) {
            Some(nonce) => Ok(nonce),
            None => match &self.parent {
                Parent::Backing(state) => state.nonce_of(a),
                Parent::Sub(caller) => caller.nonce_of(a),
            },
        }
    }

    /// The code at `a` as this execution sees it.
    pub fn code_at(&self, a: &Address) -> (r: Result<Option<Vec<u8>>, StateError>)
        ensures
            r matches Ok(code) ==> code_view(code) == self.ledger().code_at(*a),
            self.store@.code.dom().contains(*a) ==> r is Ok,
        decreases self,
    {
        proof {
            self.parent.ledger().lemma_apply_reads(self.store@, *a, arbitrary());
        }
        match self.store.written_code(a) {
            Some(code) => Ok(Some(code)),
            None => match &self.parent {
                Parent::Backing(state) => state.code_at(a),
                Parent::Sub(caller) => caller.code_at(a),
            },
        }
    }

    /// The word in slot `key` of `a` as this execution sees it.
    pub fn read_contract_storage(&self, a: &Address, key: &H256) -> (r: Result<
        Option<H256>,
        StateError,
    >)
        ensures
            r matches Ok(word) ==> word == self.ledger().storage_at(*a, *key),
            self.store@.storage.dom().contains((*a, *key)) ==> r is Ok,
        decreases self,
    {
        proof {
            self.parent.ledger().lemma_apply_reads(self.store@, *a, *key);
        }
        match self.store.written_storage(a, key) {
            Some(word) => Ok(Some(word)),
            None => match &self.parent {
                Parent::Backing(state) => state.read_contract_storage(a, key),
                Parent::Sub(caller) => caller.read_contract_storage(a, key),
            },
        }
    }

    /// Buffers `value` as the word in slot `key` of `a`.
    pub fn set_contract_storage(&mut self, a: &Address, key: &H256, value: H256)
        ensures
            final(self).ledger() == old(self).ledger().with_storage(*a, *key, value),
            final(self).store@ == old(self).store@.with_storage(*a, *key, value),
            final(self).parent == old(self).parent,
            final(self).msg_sender == old(self).msg_sender,
    {
        proof {
            self.parent.ledger().lemma_apply_write(self.store@, *a, *key, 0, Seq::empty(), value);
        }
        self.store.write_storage(a, key, value);
    }

    /// Buffers `code` as the code of `a`.
    pub fn set_code(&mut self, a: &Address, code: Vec<u8>)
        ensures
            final(self).ledger() == old(self).ledger().with_code(*a, code@),
            final(self).store@ == old(self).store@.with_code(*a, code@),
            final(self).parent == old(self).parent,
            final(self).msg_sender == old(self).msg_sender,
    {
        proof {
            self.parent.ledger().lemma_apply_write(self.store@, *a, arbitrary(), 0, code@, arbitrary());
        }
        self.store.write_code(a, code);
    }

    /// Buffers `amount` as the balance of `a`.
    pub fn set_balance(&mut self, a: &Address, amount: U256)
        ensures
            final(self).ledger() == old(self).ledger().with_balance(*a, amount@),
            final(self).store@ == old(self).store@.with_balance(*a, amount@),
            final(self).parent == old(self).parent,
            final(self).msg_sender == old(self).msg_sender,
    {
        proof {
            self.parent.ledger().lemma_apply_write(
                self.store@,
                *a,
                arbitrary(),
                amount@,
                Seq::empty(),
                arbitrary(),
            );
        }
        self.store.write_balance(a, amount);
    }

    /// Hands out the current nonce of `a` as this execution sees it, and
    /// buffers the next one. It fails, and changes nothing, where the next
    /// nonce would be 2^256; a failed read of the backing ledger is passed on,
    /// and none is made where the nonce of `a` is among the buffered writes.
    pub fn next_nonce(&mut self, a: &Address) -> (r: Result<U256, EvmError>)
        ensures
            match r {
                Ok(nonce) => {
                    &&& nonce@ == old(self).ledger().nonce_of(*a)
                    &&& final(self).ledger() == old(self).ledger().with_nonce(*a, nonce@ + 1)
                    &&& final(self).store@ == old(self).store@.with_nonce(*a, nonce@ + 1)
                    &&& final(self).parent == old(self).parent
                    &&& final(self).msg_sender == old(self).msg_sender
                },
                Err(EvmError::IntegerOverflow) => {
                    &&& old(self).ledger().nonce_of(*a) + 1 == crate::types::u256_modulus()
                    &&& *final(self) == *old(self)
                },
                Err(EvmError::State(_)) => *final(self) == *old(self),
                Err(_) => false,
            },
            old(self).store@.nonces.dom().contains(*a) ==> !(r matches Err(EvmError::State(_))),
    {
        let nonce = match self.nonce_of(a) {
            Ok(nonce) => nonce,
            Err(e) => {
                return Err(EvmError::State(e));
            },
        };
        let next = match checked_add(&nonce, &U256::from_u64(1)) {
            Some(next) => next,
            None => {
                proof {
                    U256::lemma_bounded(nonce);
                }
                return Err(EvmError::IntegerOverflow);
            },
        };
        proof {
            self.parent.ledger().lemma_apply_write(
                self.store@,
                *a,
                arbitrary(),
                next@,
                Seq::empty(),
                arbitrary(),
            );
        }
        self.store.write_nonce(a, next);
        Ok(nonce)
    }

    /// Moves `amount` from `from` to `to`, or changes nothing. It fails where
    /// `from`, as this execution sees it, does not hold `amount`, and where
    /// the balance of `to` would reach 2^256; a failed read of the backing
    /// ledger is passed on, and none is made where both balances are among the
    /// buffered writes.
    pub fn transfer_balance(&mut self, from: &Address, to: &Address, amount: U256) -> (r: Result<
        (),
        EvmError,
    >)
        ensures
            match r {
                Ok(()) => {
                    &&& old(self).ledger().can_transfer(*from, *to, amount@)
                    &&& final(self).ledger() == old(self).ledger().transfer(*from, *to, amount@)
                    &&& final(self).store@ == old(self).ledger().transfer_onto(
                        old(self).store@,
                        *from,
                        *to,
                        amount@,
                    )
                    &&& final(self).parent == old(self).parent
                    &&& final(self).msg_sender == old(self).msg_sender
                },
                Err(EvmError::InsufficientFunds) => {
                    &&& amount@ > old(self).ledger().balance_of(*from)
                    &&& *final(self) == *old(self)
                },
                Err(EvmError::IntegerOverflow) => {
                    &&& amount@ <= old(self).ledger().balance_of(*from)
                    &&& !old(self).ledger().can_transfer(*from, *to, amount@)
                    &&& *final(self) == *old(self)
                },
                Err(EvmError::State(_)) => *final(self) == *old(self),
                Err(_) => false,
            },
            old(self).store@.balances.dom().contains(*from) && old(self).store@.balances.dom().contains(
                *to,
            ) ==> !(r matches Err(EvmError::State(_))),
    {
        let held = match self.balance_of(from) {
            Ok(held) => held,
            Err(e) => {
                return Err(EvmError::State(e));
            },
        };
        let debited = match checked_sub(&held, &amount) {
            Some(debited) => debited,
            None => {
                return Err(EvmError::InsufficientFunds);
            },
        };
        let receiving = if to.equals(from) {
            debited
        } else {
            match self.balance_of(to) {
                Ok(receiving) => receiving,
                Err(e) => {
                    return Err(EvmError::State(e));
                },
            }
        };
        let credited = match checked_add(&receiving, &amount) {
            Some(credited) => credited,
            None => {
                return Err(EvmError::IntegerOverflow);
            },
        };
        proof {
            U256::lemma_bounded(credited);
        }
        self.set_balance(from, debited);
        self.set_balance(to, credited);
        Ok(())
    }
}

} // verus!
