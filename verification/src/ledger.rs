use vstd::prelude::*;

use vstd::hash_map::HashMapWithView;

use crate::errors::Error;

verus! {

/// The amount of a request that a balance can satisfy: the full request if
/// enough is available, and everything available otherwise.
pub open spec fn take_up_to(requested: int, available: int) -> int {
    if requested <= available {
        requested
    } else {
        available
    }
}

/// Addition that stops at the largest 128-bit value instead of wrapping.
pub open spec fn saturating_add_u128(a: int, b: int) -> int {
    if a + b <= u128::MAX as int {
        a + b
    } else {
        u128::MAX as int
    }
}

/// The ledger capability the registry mediates its mutations through.
///
/// An implementation holds, for every identity, a free balance and a
/// reserved balance, plus a running total of the value that has been
/// forfeited and handed to the slashed-funds sink. The registry is verified
/// against this contract alone, so any implementation that meets it can
/// stand behind the registry.
pub trait Ledger: Sized {
    /// Well-formedness of the ledger's internal state.
    spec fn wf(&self) -> bool;

    /// The identity's balance that is free for new reservations.
    spec fn free_of(&self, id: u64) -> int;

    /// The identity's balance currently held in reserve.
    spec fn reserved_of(&self, id: u64) -> int;

    /// The total value forfeited so far and handed to the sink.
    spec fn sink_total(&self) -> int;

    /// Moves `amount` from the identity's free balance into reserve.
    ///
    /// Succeeds exactly when the free balance covers the amount; on failure
    /// the ledger is left unchanged.
    fn reserve(&mut self, id: u64, amount: u64) -> (r: Result<(), Error>)
        requires
            old(self).wf(),
        ensures
            final(self).wf(),
            old(self).free_of(id) >= amount ==> (r == Ok::<(), Error>(()) && final(self).free_of(
                id,
            ) == old(self).free_of(id) - amount && final(self).reserved_of(id) == old(
                self,
            ).reserved_of(id) + amount),
            old(self).free_of(id) < amount ==> (r == Err::<(), Error>(Error::InsufficientBalance)
                && *final(self) == *old(self)),
            forall|a: u64| a != id ==> #[trigger] final(self).free_of(a) == old(self).free_of(a),
            forall|a: u64|
                a != id ==> #[trigger] final(self).reserved_of(a) == old(self).reserved_of(a),
            final(self).sink_total() == old(self).sink_total(),
    ;

    /// Moves up to `amount` from the identity's reserve back to its free
    /// balance, and returns how much was actually released. Never fails;
    /// releases less than requested only if less was reserved.
    fn unreserve(&mut self, id: u64, amount: u64) -> (released: u64)
        requires
            old(self).wf(),
        ensures
            final(self).wf(),
            released as int == take_up_to(amount as int, old(self).reserved_of(id)),
            final(self).reserved_of(id) == old(self).reserved_of(id) - released,
            final(self).free_of(id) == old(self).free_of(id) + released,
            forall|a: u64| a != id ==> #[trigger] final(self).free_of(a) == old(self).free_of(a),
            forall|a: u64|
                a != id ==> #[trigger] final(self).reserved_of(a) == old(self).reserved_of(a),
            final(self).sink_total() == old(self).sink_total(),
    ;

    /// Removes up to `amount` from the identity's reserve permanently and
    /// returns the total actually removed, which is less than requested only
    /// if less was reserved. The free balance is untouched.
    fn slash_reserved(&mut self, id: u64, amount: u64) -> (realized: u64)
        requires
            old(self).wf(),
        ensures
            final(self).wf(),
            realized as int == take_up_to(amount as int, old(self).reserved_of(id)),
            final(self).reserved_of(id) == old(self).reserved_of(id) - realized,
            final(self).free_of(id) == old(self).free_of(id),
            forall|a: u64| a != id ==> #[trigger] final(self).free_of(a) == old(self).free_of(a),
            forall|a: u64|
                a != id ==> #[trigger] final(self).reserved_of(a) == old(self).reserved_of(a),
            final(self).sink_total() == old(self).sink_total(),
    ;

    /// Hands a forfeited value to the slashed-funds sink: a one-way
    /// hand-off that leaves every account's balances untouched.
    fn notify_forfeited(&mut self, value: u64)
        requires
            old(self).wf(),
        ensures
            final(self).wf(),
            forall|a: u64| #[trigger] final(self).free_of(a) == old(self).free_of(a),
            forall|a: u64| #[trigger] final(self).reserved_of(a) == old(self).reserved_of(a),
            final(self).sink_total() == saturating_add_u128(old(self).sink_total(), value as int),
    ;
}

/// One identity's balances in the in-memory ledger.
#[derive(Clone, Copy)]
struct AccountState {
    free: u64,
    reserved: u64,
}

/// A verified in-memory ledger: each identity has a free and a reserved
/// balance, and the forfeited total accumulates in a sink counter.
pub struct InMemoryLedger {
    accounts: HashMapWithView<u64, AccountState>,
    sink: u128,
}

impl InMemoryLedger {
    /// A ledger with every balance zero.
    pub fn new() -> (r: InMemoryLedger)
        ensures
            r.wf(),
            forall|a: u64| #[trigger] r.free_of(a) == 0,
            forall|a: u64| #[trigger] r.reserved_of(a) == 0,
            r.sink_total() == 0,
    {
        InMemoryLedger { accounts: HashMapWithView::new(), sink: 0 }
    }

    /// The identity's balances, defaulting to zero for an unknown identity.
    fn account(&self, id: u64) -> (r: AccountState)
        ensures
            r.free as int == self.free_of(id),
            r.reserved as int == self.reserved_of(id),
    {
        match self.accounts.get(&id) {
            Some(a) => *a,
            None => AccountState { free: 0, reserved: 0 },
        }
    }

    /// Adds `amount` to the identity's free balance, so that a later
    /// reservation can draw on it.
    pub fn credit_free(&mut self, id: u64, amount: u64)
        requires
            old(self).wf(),
            old(self).free_of(id) + old(self).reserved_of(id) + amount <= u64::MAX,
        ensures
            final(self).wf(),
            final(self).free_of(id) == old(self).free_of(id) + amount,
            final(self).reserved_of(id) == old(self).reserved_of(id),
            forall|a: u64| a != id ==> #[trigger] final(self).free_of(a) == old(self).free_of(a),
            forall|a: u64|
                a != id ==> #[trigger] final(self).reserved_of(a) == old(self).reserved_of(a),
            final(self).sink_total() == old(self).sink_total(),
    {
        let acct = self.account(id);
        let updated = AccountState { free: acct.free + amount, reserved: acct.reserved };
        self.accounts.insert(id, updated);
    }

    /// The identity's free balance.
    pub fn free_balance(&self, id: u64) -> (r: u64)
        ensures
            r as int == self.free_of(id),
    {
        self.account(id).free
    }

    /// The identity's reserved balance.
    pub fn reserved_balance(&self, id: u64) -> (r: u64)
        ensures
            r as int == self.reserved_of(id),
    {
        self.account(id).reserved
    }

    /// The total value the sink has received.
    pub fn forfeited_total(&self) -> (r: u128)
        ensures
            r as int == self.sink_total(),
    {
        self.sink
    }
}

impl Ledger for InMemoryLedger {
    closed spec fn wf(&self) -> bool {
        forall|id: u64|
            self.accounts@.contains_key(id) ==> (#[trigger] self.accounts@[id]).free + self.accounts@[id].reserved <= u64::MAX
    }

    closed spec fn free_of(&self, id: u64) -> int {
        if self.accounts@.contains_key(id) {
            self.accounts@[id].free as int
        } else {
            0
        }
    }

    closed spec fn reserved_of(&self, id: u64) -> int {
        if self.accounts@.contains_key(id) {
            self.accounts@[id].reserved as int
        } else {
            0
        }
    }

    closed spec fn sink_total(&self) -> int {
        self.sink as int
    }

    fn reserve(&mut self, id: u64, amount: u64) -> (r: Result<(), Error>) {
        let acct = self.account(id);
        if acct.free >= amount {
            let updated = AccountState {
                free: acct.free - amount,
                reserved: acct.reserved + amount,
            };
            self.accounts.insert(id, updated);
            Ok(())
        } else {
            Err(Error::InsufficientBalance)
        }
    }

    fn unreserve(&mut self, id: u64, amount: u64) -> (released: u64) {
        let acct = self.account(id);
        let released = if amount <= acct.reserved {
            amount
        } else {
            acct.reserved
        };
        let updated = AccountState {
            free: acct.free + released,
            reserved: acct.reserved - released,
        };
        self.accounts.insert(id, updated);
        released
    }

    fn slash_reserved(&mut self, id: u64, amount: u64) -> (realized: u64) {
        let acct = self.account(id);
        let realized = if amount <= acct.reserved {
            amount
        } else {
            acct.reserved
        };
        let updated = AccountState { free: acct.free, reserved: acct.reserved - realized };
        self.accounts.insert(id, updated);
        realized
    }

    fn notify_forfeited(&mut self, value: u64) {
        if self.sink <= u128::MAX - (value as u128) {
            self.sink = self.sink + (value as u128);
        } else {
            self.sink = u128::MAX;
        }
    }
}

} // verus!
