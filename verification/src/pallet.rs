//! The four authenticated transitions on the account counters.
//!
//! Each operation resolves the caller's origin to a signed account, mutates
//! that account's counter, appends exactly one event, and returns `Ok(())`.
//! An origin that is not signed fails with [`Error::UnauthorizedOrigin`]
//! before any mutation: the counters and the event log are left untouched.
//!
//! `increase_number` and `decrease_number` use unchecked-width arithmetic:
//! the counter wraps at the `u32` boundary rather than failing.
//! [`Error::StorageOverflow`] is declared but never raised.

use crate::store::AccountId;
use crate::store::CounterMap;
use crate::store::counter_of;
use vstd::prelude::*;

verus! {

/// Externally verified proof of which account, if any, issued a request.
/// Authentication itself happens outside the library: a caller that holds
/// `Signed(who)` is taken to speak for `who`.
#[derive(Clone, Copy, Debug, PartialEq, Eq, Structural)]
pub enum Origin {
    /// The request was signed by the given account.
    Signed(AccountId),
    /// The request carries no authenticated account.
    Unsigned,
}

/// A record of one completed transition, delivered to the event log.
#[derive(Clone, Copy, Debug, PartialEq, Eq, Structural)]
pub enum Event {
    /// A counter was set to the given value for the given account.
    NumberStored(u32, AccountId),
    /// A counter was increased or decreased by the given delta (the delta,
    /// not the resulting value) for the given account.
    NumberChanged(u32, AccountId),
    /// The given account's entry was removed.
    NumberFree(AccountId),
}

/// The failures an operation can report.
#[derive(Clone, Copy, Debug, PartialEq, Eq, Structural)]
pub enum Error {
    /// The origin does not resolve to a signed account. The only error any
    /// operation currently raises.
    UnauthorizedOrigin,
    /// Reserved for a future precondition; no operation raises it.
    NoneValue,
    /// Reserved for a checked arithmetic policy; no operation raises it,
    /// since `increase_number` and `decrease_number` wrap instead.
    StorageOverflow,
}

/// `n + d` at the counter's width: the sum where it is representable, and
/// the sum less `2^32` where it overflows.
pub open spec fn wrap_add(n: u32, d: u32) -> u32 {
    if n + d <= u32::MAX {
        (n + d) as u32
    } else {
        (n + d - 0x1_0000_0000) as u32
    }
}

/// `n - d` at the counter's width: the difference where `d <= n`, and the
/// difference plus `2^32` where it underflows.
pub open spec fn wrap_sub(n: u32, d: u32) -> u32 {
    if d <= n {
        (n - d) as u32
    } else {
        (n - d + 0x1_0000_0000) as u32
    }
}

/// Resolves an origin to the signing account, or rejects it.
pub fn ensure_signed(origin: Origin) -> (r: Result<AccountId, Error>)
    ensures
        match origin {
            Origin::Signed(who) => r == Ok::<AccountId, Error>(who),
            Origin::Unsigned => r == Err::<AccountId, Error>(Error::UnauthorizedOrigin),
        },
{
    match origin {
        Origin::Signed(who) => Ok(who),
        Origin::Unsigned => Err(Error::UnauthorizedOrigin),
    }
}

/// The account counter store: a counter map and the event log of the
/// current transaction. Only the four operations below mutate the map, and
/// each appends exactly one event on success.
pub struct Pallet {
    numbers: CounterMap,
    events: Vec<Event>,
}

impl Pallet {
    /// The counters, as a map from account to stored value. Accounts
    /// outside its domain read as zero.
    pub closed spec fn counters(&self) -> Map<AccountId, u32> {
        self.numbers@
    }

    /// The events emitted so far, oldest first.
    pub closed spec fn emitted(&self) -> Seq<Event> {
        self.events@
    }

    /// A fresh store: no entries, no events.
    pub fn new() -> (r: Self)
        ensures
            r.counters() == Map::<AccountId, u32>::empty(),
            r.emitted() == Seq::<Event>::empty(),
    {
        Pallet { numbers: CounterMap::new(), events: Vec::new() }
    }

    /// The counter of `account`: the stored value, or zero where no entry
    /// exists.
    pub fn number(&self, account: AccountId) -> (r: u32)
        ensures
            r == counter_of(self.counters(), account),
    {
        self.numbers.get(account)
    }

    /// The events emitted so far, oldest first.
    pub fn events(&self) -> (r: &Vec<Event>)
        ensures
            r@ == self.emitted(),
    {
        &self.events
    }

    fn deposit_event(&mut self, event: Event)
        ensures
            final(self).counters() == old(self).counters(),
            final(self).emitted() == old(self).emitted().push(event),
    {
        self.events.push(event);
    }

    /// Store `number` as the signer's counter, overwriting any earlier
    /// entry, and emit `NumberStored(number, who)`.
    pub fn set_number(&mut self, origin: Origin, number: u32) -> (r: Result<(), Error>)
        ensures
            match origin {
                Origin::Signed(who) => {
                    &&& r == Ok::<(), Error>(())
                    &&& final(self).counters() == old(self).counters().insert(who, number)
                    &&& counter_of(final(self).counters(), who) == number
                    &&& final(self).emitted() == old(self).emitted().push(
                        Event::NumberStored(number, who),
                    )
                },
                Origin::Unsigned => {
                    &&& r == Err::<(), Error>(Error::UnauthorizedOrigin)
                    &&& final(self).counters() == old(self).counters()
                    &&& final(self).emitted() == old(self).emitted()
                },
            },
    {
        let who = match ensure_signed(origin) {
            Ok(who) => who,
            Err(e) => {
                return Err(e);
            },
        };
        self.numbers.insert(who, number);
        self.deposit_event(Event::NumberStored(number, who));
        Ok(())
    }

    /// Drop the signer's entry, so the account reads as zero again, and
    /// emit `NumberFree(who)`.
    pub fn remove_number(&mut self, origin: Origin) -> (r: Result<(), Error>)
        ensures
            match origin {
                Origin::Signed(who) => {
                    &&& r == Ok::<(), Error>(())
                    &&& final(self).counters() == old(self).counters().remove(who)
                    &&& counter_of(final(self).counters(), who) == 0
                    &&& final(self).emitted() == old(self).emitted().push(Event::NumberFree(who))
                },
                Origin::Unsigned => {
                    &&& r == Err::<(), Error>(Error::UnauthorizedOrigin)
                    &&& final(self).counters() == old(self).counters()
                    &&& final(self).emitted() == old(self).emitted()
                },
            },
    {
        let who = match ensure_signed(origin) {
            Ok(who) => who,
            Err(e) => {
                return Err(e);
            },
        };
        self.numbers.remove(who);
        self.deposit_event(Event::NumberFree(who));
        Ok(())
    }

    /// Add `amount` to the signer's counter, wrapping at the `u32` width,
    /// and emit `NumberChanged(amount, who)` — the delta, not the result.
    /// Where the sum stays representable, the counter becomes exactly the
    /// old value plus `amount`.
    pub fn increase_number(&mut self, origin: Origin, amount: u32) -> (r: Result<(), Error>)
        ensures
            match origin {
                Origin::Signed(who) => {
                    &&& r == Ok::<(), Error>(())
                    &&& final(self).counters() == old(self).counters().insert(
                        who,
                        wrap_add(counter_of(old(self).counters(), who), amount),
                    )
                    &&& counter_of(old(self).counters(), who) + amount <= u32::MAX ==> counter_of(
                        final(self).counters(),
                        who,
                    ) == counter_of(old(self).counters(), who) + amount
                    &&& final(self).emitted() == old(self).emitted().push(
                        Event::NumberChanged(amount, who),
                    )
                },
                Origin::Unsigned => {
                    &&& r == Err::<(), Error>(Error::UnauthorizedOrigin)
                    &&& final(self).counters() == old(self).counters()
                    &&& final(self).emitted() == old(self).emitted()
                },
            },
    {
        let who = match ensure_signed(origin) {
            Ok(who) => who,
            Err(e) => {
                return Err(e);
            },
        };
        let n = self.numbers.get(who);
        let sum: u64 = n as u64 + amount as u64;
        let next: u32 = if sum <= u32::MAX as u64 {
            sum as u32
        } else {
            (sum - 0x1_0000_0000u64) as u32
        };
        self.numbers.insert(who, next);
        self.deposit_event(Event::NumberChanged(amount, who));
        Ok(())
    }

    /// Subtract `amount` from the signer's counter, wrapping at the `u32`
    /// width, and emit `NumberChanged(amount, who)` — the delta, not the
    /// result. Where `amount` does not exceed the counter, it becomes
    /// exactly the old value minus `amount`.
    pub fn decrease_number(&mut self, origin: Origin, amount: u32) -> (r: Result<(), Error>)
        ensures
            match origin {
                Origin::Signed(who) => {
                    &&& r == Ok::<(), Error>(())
                    &&& final(self).counters() == old(self).counters().insert(
                        who,
                        wrap_sub(counter_of(old(self).counters(), who), amount),
                    )
                    &&& amount <= counter_of(old(self).counters(), who) ==> counter_of(
                        final(self).counters(),
                        who,
                    ) == counter_of(old(self).counters(), who) - amount
                    &&& final(self).emitted() == old(self).emitted().push(
                        Event::NumberChanged(amount, who),
                    )
                },
                Origin::Unsigned => {
                    &&& r == Err::<(), Error>(Error::UnauthorizedOrigin)
                    &&& final(self).counters() == old(self).counters()
                    &&& final(self).emitted() == old(self).emitted()
                },
            },
    {
        let who = match ensure_signed(origin) {
            Ok(who) => who,
            Err(e) => {
                return Err(e);
            },
        };
        let n = self.numbers.get(who);
        let next: u32 = if amount <= n {
            n - amount
        } else {
            ((n as u64 + 0x1_0000_0000u64) - amount as u64) as u32
        };
        self.numbers.insert(who, next);
        self.deposit_event(Event::NumberChanged(amount, who));
        Ok(())
    }
}

} // verus!
