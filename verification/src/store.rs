//! The counter map: one `u32` counter per account, absent entries read as zero.

use std::collections::HashMap;
use vstd::prelude::*;

verus! {

broadcast use vstd::std_specs::hash::group_hash_axioms;

/// Identifies a ledger participant. It serves only as a key: the store
/// attaches no meaning to the number itself.
pub type AccountId = u64;

/// The counter that `counters` assigns to `account`: the stored value where
/// an entry exists, and zero where none does.
pub open spec fn counter_of(counters: Map<AccountId, u32>, account: AccountId) -> u32 {
    if counters.contains_key(account) {
        counters[account]
    } else {
        0u32
    }
}

/// A mapping from account identifier to an unsigned counter, with point
/// `get` / `insert` / `remove` operations. A query never fails: an account
/// without an entry has counter zero.
pub struct CounterMap {
    entries: HashMap<AccountId, u32>,
}

impl View for CounterMap {
    type V = Map<AccountId, u32>;

    closed spec fn view(&self) -> Map<AccountId, u32> {
        self.entries@
    }
}

impl CounterMap {
    /// An empty map: every account reads as zero.
    pub fn new() -> (r: Self)
        ensures
            r@ == Map::<AccountId, u32>::empty(),
    {
        CounterMap { entries: HashMap::new() }
    }

    /// The counter of `account`, zero where no entry exists.
    pub fn get(&self, account: AccountId) -> (r: u32)
        ensures
            r == counter_of(self@, account),
    {
        match self.entries.get(&account) {
            Some(value) => *value,
            None => 0,
        }
    }

    /// Upsert: stores `value` for `account`, overwriting any earlier entry.
    pub fn insert(&mut self, account: AccountId, value: u32)
        ensures
            final(self)@ == old(self)@.insert(account, value),
    {
        self.entries.insert(account, value);
    }

    /// Drops the entry of `account`; a no-op where none exists.
    pub fn remove(&mut self, account: AccountId)
        ensures
            final(self)@ == old(self)@.remove(account),
    {
        self.entries.remove(&account);
    }
}

} // verus!
