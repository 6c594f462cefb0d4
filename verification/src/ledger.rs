//! The mathematical model of account state: what a ledger holds, what a
//! buffered set of writes holds, and what applying one to the other gives.
use crate::types::{Address, H256};
use vstd::prelude::*;

verus! {

/// Balances, nonces, code and storage by account. A full ledger and a set of
/// buffered writes have the same shape: the writes are a ledger that is
/// defined only where something was written.
#[verifier::ext_equal]
pub ghost struct Ledger {
    pub balances: Map<Address, nat>,
    pub nonces: Map<Address, nat>,
    pub code: Map<Address, Seq<u8>>,
    pub storage: Map<(Address, H256), H256>,
}

impl Ledger {
    /// The ledger that holds nothing, which is also the empty set of writes.
    pub open spec fn empty() -> Ledger {
        Ledger {
            balances: Map::empty(),
            nonces: Map::empty(),
            code: Map::empty(),
            storage: Map::empty(),
        }
    }

    /// The balance of `a`; an account that was never credited holds zero.
    pub open spec fn balance_of(self, a: Address) -> nat {
        if self.balances.dom().contains(a) {
            self.balances[a]
        } else {
            0
        }
    }

    /// The nonce of `a`; an account that never acted has nonce zero.
    pub open spec fn nonce_of(self, a: Address) -> nat {
        if self.nonces.dom().contains(a) {
            self.nonces[a]
        } else {
            0
        }
    }

    /// The code at `a`. Empty code is not the same as no code.
    pub open spec fn code_at(self, a: Address) -> Option<Seq<u8>> {
        if self.code.dom().contains(a) {
            Some(self.code[a])
        } else {
            None
        }
    }

    /// The word in slot `key` of the storage of `a`, if the slot was ever written.
    pub open spec fn storage_at(self, a: Address, key: H256) -> Option<H256> {
        if self.storage.dom().contains((a, key)) {
            Some(self.storage[(a, key)])
        } else {
            None
        }
    }

    pub open spec fn with_balance(self, a: Address, amount: nat) -> Ledger {
        Ledger { balances: self.balances.insert(a, amount), ..self }
    }

    pub open spec fn with_nonce(self, a: Address, nonce: nat) -> Ledger {
        Ledger { nonces: self.nonces.insert(a, nonce), ..self }
    }

    pub open spec fn with_code(self, a: Address, code: Seq<u8>) -> Ledger {
        Ledger { code: self.code.insert(a, code), ..self }
    }

    pub open spec fn with_storage(self, a: Address, key: H256, value: H256) -> Ledger {
        Ledger { storage: self.storage.insert((a, key), value), ..self }
    }

    /// This ledger after the writes in `writes`: a written entry replaces the
    /// one below it, everything else stays.
    pub open spec fn apply(self, writes: Ledger) -> Ledger {
        Ledger {
            balances: self.balances.union_prefer_right(writes.balances),
            nonces: self.nonces.union_prefer_right(writes.nonces),
            code: self.code.union_prefer_right(writes.code),
            storage: self.storage.union_prefer_right(writes.storage),
        }
    }

    /// This ledger with the account `a` reinitialised: its code and all of
    /// its storage are gone, its balance and nonce stay.
    pub open spec fn recreated(self, a: Address) -> Ledger {
        Ledger {
            code: self.code.remove(a),
            storage: storage_without_account(self.storage, a),
            ..self
        }
    }

    /// Whether `amount` can move from `from` to `to`: the sender holds it, and
    /// the receiver's balance stays below 2^256.
    pub open spec fn can_transfer(self, from: Address, to: Address, amount: nat) -> bool {
        &&& amount <= self.balance_of(from)
        &&& self.debit(from, amount).balance_of(to) + amount < crate::types::u256_modulus()
    }

    /// This ledger with `amount` taken from `from`.
    pub open spec fn debit(self, from: Address, amount: nat) -> Ledger {
        self.with_balance(from, (self.balance_of(from) - amount) as nat)
    }

    /// This ledger with `amount` given to `to`.
    pub open spec fn credit(self, to: Address, amount: nat) -> Ledger {
        self.with_balance(to, self.balance_of(to) + amount)
    }

    /// This ledger after `amount` moved from `from` to `to`: first the debit,
    /// then the credit, so that a transfer to oneself changes no balance.
    pub open spec fn transfer(self, from: Address, to: Address, amount: nat) -> Ledger {
        self.debit(from, amount).credit(to, amount)
    }

    /// The buffered writes `writes` with what a transfer of `amount` from
    /// `from` to `to` adds to them: the two balances that the transfer
    /// leaves, where `self` is the state as it was seen before the transfer.
    pub open spec fn transfer_onto(
        self,
        writes: Ledger,
        from: Address,
        to: Address,
        amount: nat,
    ) -> Ledger {
        writes.with_balance(from, self.debit(from, amount).balance_of(from)).with_balance(
            to,
            self.transfer(from, to, amount).balance_of(to),
        )
    }

    /// Applying no writes changes nothing.
    pub proof fn lemma_apply_empty(self)
        ensures
            self.apply(Ledger::empty()) == self,
    {
        assert(self.apply(Ledger::empty()) =~= self);
    }

    /// Applying two sets of writes in turn is applying the second on top of
    /// the first.
    pub proof fn lemma_apply_apply(self, first: Ledger, second: Ledger)
        ensures
            self.apply(first).apply(second) == self.apply(first.apply(second)),
    {
        assert(self.apply(first).apply(second) =~= self.apply(first.apply(second)));
    }

    /// A read through buffered writes sees the write where there is one, and
    /// the ledger below where there is none.
    pub proof fn lemma_apply_reads(self, writes: Ledger, a: Address, key: H256)
        ensures
            self.apply(writes).balance_of(a) == if writes.balances.dom().contains(a) {
                writes.balances[a]
            } else {
                self.balance_of(a)
            },
            self.apply(writes).nonce_of(a) == if writes.nonces.dom().contains(a) {
                writes.nonces[a]
            } else {
                self.nonce_of(a)
            },
            self.apply(writes).code_at(a) == if writes.code.dom().contains(a) {
                Some(writes.code[a])
            } else {
                self.code_at(a)
            },
            self.apply(writes).storage_at(a, key) == if writes.storage.dom().contains((a, key)) {
                Some(writes.storage[(a, key)])
            } else {
                self.storage_at(a, key)
            },
    {
    }

    /// Buffering one more write and then applying is applying and then writing.
    pub proof fn lemma_apply_write(self, writes: Ledger, a: Address, key: H256, amount: nat, code: Seq<u8>, value: H256)
        ensures
            self.apply(writes.with_balance(a, amount)) == self.apply(writes).with_balance(a, amount),
            self.apply(writes.with_nonce(a, amount)) == self.apply(writes).with_nonce(a, amount),
            self.apply(writes.with_code(a, code)) == self.apply(writes).with_code(a, code),
            self.apply(writes.with_storage(a, key, value)) == self.apply(writes).with_storage(
                a,
                key,
                value,
            ),
    {
        assert(self.apply(writes.with_balance(a, amount)) =~= self.apply(writes).with_balance(
            a,
            amount,
        ));
        assert(self.apply(writes.with_nonce(a, amount)) =~= self.apply(writes).with_nonce(
            a,
            amount,
        ));
        assert(self.apply(writes.with_code(a, code)) =~= self.apply(writes).with_code(a, code));
        assert(self.apply(writes.with_storage(a, key, value)) =~= self.apply(writes).with_storage(
            a,
            key,
            value,
        ));
    }
}

/// The storage `storage` without the slots of the account `a`.
pub open spec fn storage_without_account(storage: Map<(Address, H256), H256>, a: Address) -> Map<
    (Address, H256),
    H256,
> {
    Map::new(
        |k: (Address, H256)| storage.dom().contains(k) && k.0 != a,
        |k: (Address, H256)| storage[k],
    )
}

/// The map that a write log stands for: each entry writes its value under its
/// key, and a later entry replaces an earlier one with the same key.
pub open spec fn log_map<K, V>(log: Seq<(K, V)>) -> Map<K, V>
    decreases log.len(),
{
    if log.len() == 0 {
        Map::empty()
    } else {
        log_map(log.drop_last()).insert(log.last().0, log.last().1)
    }
}

/// One more entry at the end of a log is one more write to its map.
pub proof fn lemma_log_map_push<K, V>(log: Seq<(K, V)>, entry: (K, V))
    ensures
        log_map(log.push(entry)) == log_map(log).insert(entry.0, entry.1),
{
    assert(log.push(entry).drop_last() =~= log);
}

/// A log followed by another stands for the first map with the second's
/// entries written over it.
pub proof fn lemma_log_map_concat<K, V>(first: Seq<(K, V)>, second: Seq<(K, V)>)
    ensures
        log_map(first + second) == log_map(first).union_prefer_right(log_map(second)),
    decreases second.len(),
{
    if second.len() == 0 {
        assert(first + second =~= first);
        assert(log_map(first).union_prefer_right(log_map(second)) =~= log_map(first));
    } else {
        let rest = second.drop_last();
        lemma_log_map_concat(first, rest);
        assert((first + second).drop_last() =~= first + rest);
        assert((first + second).last() == second.last());
        assert(log_map(first + second) =~= log_map(first).union_prefer_right(log_map(second)));
    }
}

} // verus!
