//! Laws of the counter map model.
//!
//! The four operations state their exact effect on [`Pallet::counters`]
//! (an insert, a remove, or no change at all) in their own `ensures`. The
//! lemmas here state what those effects imply for later queries: they are
//! part of what the library promises, stated over the same map model.

use crate::store::AccountId;
use crate::store::counter_of;
use vstd::prelude::*;

verus! {

/// An account with no entry reads as zero.
pub proof fn lemma_absent_account_is_zero(counters: Map<AccountId, u32>, account: AccountId)
    requires
        !counters.contains_key(account),
    ensures
        counter_of(counters, account) == 0,
{
}

/// In a fresh store every account reads as zero.
pub proof fn lemma_empty_store_is_all_zero(account: AccountId)
    ensures
        counter_of(Map::<AccountId, u32>::empty(), account) == 0,
{
}

/// Storing a value and storing it again leaves the same counters as
/// storing it once: repeating a set is idempotent.
pub proof fn lemma_set_is_idempotent(
    counters: Map<AccountId, u32>,
    account: AccountId,
    value: u32,
)
    ensures
        counters.insert(account, value).insert(account, value) == counters.insert(account, value),
{
    assert(counters.insert(account, value).insert(account, value) =~= counters.insert(
        account,
        value,
    ));
}

/// Removing an entry and removing it again leaves the same counters as
/// removing it once: the second removal is a no-op.
pub proof fn lemma_remove_is_idempotent(counters: Map<AccountId, u32>, account: AccountId)
    ensures
        counters.remove(account).remove(account) == counters.remove(account),
{
    assert(counters.remove(account).remove(account) =~= counters.remove(account));
}

/// Counters of distinct accounts are independent: storing for one account
/// leaves every other account's reading unchanged.
pub proof fn lemma_accounts_are_independent(
    counters: Map<AccountId, u32>,
    account: AccountId,
    value: u32,
    other: AccountId,
)
    requires
        other != account,
    ensures
        counter_of(counters.insert(account, value), other) == counter_of(counters, other),
        counter_of(counters.remove(account), other) == counter_of(counters, other),
{
}

} // verus!
