use vstd::prelude::*;

use crate::errors::Error;
use crate::events::Event;
use crate::ledger::{saturating_add_u128, take_up_to, Ledger};
use crate::profile::{valid_lengths, Entry, EntryView, Profile, ProfileView};
use crate::store::RecordStore;

verus! {

/// The provenance of a call: either a signed account or the privileged root.
#[derive(Clone, Copy, Debug, PartialEq, Eq, Structural)]
pub enum Origin {
    /// An ordinary, authenticated account.
    Signed(u64),
    /// The privileged origin, allowed to remove or overwrite any entry.
    Root,
}

impl Origin {
    /// Whether this origin may perform privileged operations.
    pub open spec fn is_privileged(self) -> bool {
        self is Root
    }

    /// Executable privilege check, equal to [`Origin::is_privileged`].
    pub fn check_privileged(&self) -> (r: bool)
        ensures
            r == self.is_privileged(),
    {
        match self {
            Origin::Root => true,
            Origin::Signed(_) => false,
        }
    }
}

/// The registry's immutable configuration.
#[derive(Clone, Copy, Debug, PartialEq, Eq, Structural)]
pub struct RegistryConfig {
    /// Upper bound on the byte length of a profile's name and title.
    pub max_length: u32,
    /// The amount reserved from an identity when its entry is first stored.
    pub deposit_value: u64,
}

/// The entries after a submission: the profile is written for the identity,
/// and the deposit is the existing entry's if one is stored, the configured
/// deposit value otherwise.
pub open spec fn submit_effect(
    entries: Map<u64, EntryView>,
    id: u64,
    profile: ProfileView,
    deposit_value: u64,
) -> Map<u64, EntryView> {
    let deposit = if entries.contains_key(id) {
        entries[id].deposit
    } else {
        deposit_value
    };
    entries.insert(id, EntryView { profile, deposit })
}

/// The entries after a privileged overwrite: the profile is written for the
/// identity, with the existing entry's deposit if one is stored and a zero
/// deposit otherwise. No reservation backs a zero-deposit entry.
pub open spec fn force_set_effect(
    entries: Map<u64, EntryView>,
    id: u64,
    profile: ProfileView,
) -> Map<u64, EntryView> {
    let deposit = if entries.contains_key(id) {
        entries[id].deposit
    } else {
        0u64
    };
    entries.insert(id, EntryView { profile, deposit })
}

/// Conservation of reserved value: every stored entry's deposit is held in
/// reserve for its identity, and identities without an entry have nothing
/// in reserve.
pub open spec fn conserves<L: Ledger>(entries: Map<u64, EntryView>, ledger: L) -> bool {
    forall|id: u64|
        #[trigger] ledger.reserved_of(id) == if entries.contains_key(id) {
            entries[id].deposit as int
        } else {
            0
        }
}

/// Every stored profile respects the given length bound.
pub open spec fn entries_bounded(entries: Map<u64, EntryView>, max_length: u32) -> bool {
    forall|id: u64|
        entries.contains_key(id) ==> valid_lengths(
            (#[trigger] entries[id]).profile.name,
            entries[id].profile.title,
            max_length,
        )
}

/// The deposit-backed registry service: a record store whose every mutation
/// is mediated through a [`Ledger`], plus a log of the events emitted.
pub struct Registry {
    config: RegistryConfig,
    store: RecordStore,
    event_log: Vec<Event>,
}

impl Registry {
    /// The stored entries, keyed by identity.
    pub closed spec fn entries(self) -> Map<u64, EntryView> {
        self.store@
    }

    /// The events emitted so far, oldest first.
    pub closed spec fn log(self) -> Seq<Event> {
        self.event_log@
    }

    /// The configured length bound.
    pub closed spec fn max_length(self) -> u32 {
        self.config.max_length
    }

    /// The configured deposit amount.
    pub closed spec fn deposit_value(self) -> u64 {
        self.config.deposit_value
    }

    /// An empty registry with the given configuration.
    pub fn new(config: RegistryConfig) -> (r: Registry)
        ensures
            r.entries() == Map::<u64, EntryView>::empty(),
            r.log() == Seq::<Event>::empty(),
            r.max_length() == config.max_length,
            r.deposit_value() == config.deposit_value,
    {
        Registry { config, store: RecordStore::new(), event_log: Vec::new() }
    }

    /// Looks the identity's entry up; no side effects.
    pub fn get_entry(&self, id: u64) -> (r: Option<&Entry>)
        ensures
            match r {
                Some(e) => self.entries().contains_key(id) && e@ == self.entries()[id],
                None => !self.entries().contains_key(id),
            },
    {
        self.store.get(id)
    }

    /// The events emitted so far, oldest first.
    pub fn events(&self) -> (r: &Vec<Event>)
        ensures
            r@ == self.log(),
    {
        &self.event_log
    }

    /// Stores or replaces the caller's own profile.
    ///
    /// Over-long fields are rejected with no side effect. A first submission
    /// reserves the configured deposit from the caller's free balance and
    /// fails, again with no side effect, if the balance cannot cover it; a
    /// resubmission replaces the profile, leaves the stored deposit and the
    /// ledger untouched, and makes no reservation.
    pub fn submit_profile<L: Ledger>(
        &mut self,
        ledger: &mut L,
        identity: u64,
        name: Vec<u8>,
        age: u8,
        title: Vec<u8>,
    ) -> (r: Result<(), Error>)
        requires
            old(ledger).wf(),
        ensures
            final(ledger).wf(),
            final(self).max_length() == old(self).max_length(),
            final(self).deposit_value() == old(self).deposit_value(),
            old(self).log().is_prefix_of(final(self).log()),
            !valid_lengths(name@, title@, old(self).max_length()) ==> ({
                &&& r == Err::<(), Error>(Error::TooLong)
                &&& *final(self) == *old(self)
                &&& *final(ledger) == *old(ledger)
            }),
            ({
                &&& valid_lengths(name@, title@, old(self).max_length())
                &&& old(self).entries().contains_key(identity)
            }) ==> ({
                let profile = ProfileView { name: name@, age, title: title@ };
                &&& r == Ok::<(), Error>(())
                &&& final(self).entries() == submit_effect(
                    old(self).entries(),
                    identity,
                    profile,
                    old(self).deposit_value(),
                )
                &&& final(self).log() == old(self).log().push(
                    Event::ProfileUpdated(identity),
                ).push(Event::ProfileAdded(identity))
                &&& *final(ledger) == *old(ledger)
            }),
            ({
                &&& valid_lengths(name@, title@, old(self).max_length())
                &&& !old(self).entries().contains_key(identity)
                &&& old(ledger).free_of(identity) >= old(self).deposit_value()
            }) ==> ({
                let profile = ProfileView { name: name@, age, title: title@ };
                let deposit = old(self).deposit_value();
                &&& r == Ok::<(), Error>(())
                &&& final(self).entries() == submit_effect(
                    old(self).entries(),
                    identity,
                    profile,
                    deposit,
                )
                &&& final(self).log() == old(self).log().push(
                    Event::ValueReserved(identity, deposit),
                ).push(Event::ProfileAdded(identity))
                &&& final(ledger).free_of(identity) == old(ledger).free_of(identity) - deposit
                &&& final(ledger).reserved_of(identity) == old(ledger).reserved_of(identity)
                    + deposit
                &&& final(ledger).sink_total() == old(ledger).sink_total()
            }),
            ({
                &&& valid_lengths(name@, title@, old(self).max_length())
                &&& !old(self).entries().contains_key(identity)
                &&& old(ledger).free_of(identity) < old(self).deposit_value()
            }) ==> ({
                &&& r == Err::<(), Error>(Error::InsufficientBalance)
                &&& *final(self) == *old(self)
                &&& *final(ledger) == *old(ledger)
            }),
            forall|a: u64|
                a != identity ==> #[trigger] final(ledger).free_of(a) == old(ledger).free_of(a),
            forall|a: u64|
                a != identity ==> #[trigger] final(ledger).reserved_of(a)
                    == old(ledger).reserved_of(a),
            conserves(old(self).entries(), *old(ledger)) ==> conserves(
                final(self).entries(),
                *final(ledger),
            ),
            entries_bounded(old(self).entries(), old(self).max_length()) ==> entries_bounded(
                final(self).entries(),
                final(self).max_length(),
            ),
    {
        let ghost pre_entries = self.entries();
        let ghost pre_ledger = *ledger;
        if name.len() > self.config.max_length as usize {
            return Err(Error::TooLong);
        }
        if title.len() > self.config.max_length as usize {
            return Err(Error::TooLong);
        }
        let deposit: u64;
        match self.store.get(identity) {
            Some(existing) => {
                deposit = existing.deposit;
                self.event_log.push(Event::ProfileUpdated(identity));
            },
            None => {
                let amount = self.config.deposit_value;
                match ledger.reserve(identity, amount) {
                    Ok(()) => {},
                    Err(e) => {
                        return Err(e);
                    },
                }
                self.event_log.push(Event::ValueReserved(identity, amount));
                deposit = amount;
            },
        }
        let profile = Profile { name, age, title };
        self.store.put(identity, Entry { profile, deposit });
        self.event_log.push(Event::ProfileAdded(identity));
        proof {
            if conserves(pre_entries, pre_ledger) {
                assert forall|id: u64|
                    #[trigger] ledger.reserved_of(id) == if self.entries().contains_key(id) {
                        self.entries()[id].deposit as int
                    } else {
                        0
                    } by {
                    if id != identity {
                        assert(ledger.reserved_of(id) == pre_ledger.reserved_of(id));
                    }
                }
            }
        }
        Ok(())
    }

    /// Removes the caller's own entry and releases its deposit.
    ///
    /// Fails with no side effect when no entry is stored; otherwise asks the
    /// ledger to release exactly the stored deposit back to the caller's
    /// free balance, removes the entry, and records both transitions.
    pub fn withdraw_profile<L: Ledger>(&mut self, ledger: &mut L, identity: u64) -> (r: Result<
        (),
        Error,
    >)
        requires
            old(ledger).wf(),
        ensures
            final(ledger).wf(),
            final(self).max_length() == old(self).max_length(),
            final(self).deposit_value() == old(self).deposit_value(),
            old(self).log().is_prefix_of(final(self).log()),
            !old(self).entries().contains_key(identity) ==> ({
                &&& r == Err::<(), Error>(Error::NotRegistered)
                &&& *final(self) == *old(self)
                &&& *final(ledger) == *old(ledger)
            }),
            old(self).entries().contains_key(identity) ==> ({
                let deposit = old(self).entries()[identity].deposit;
                let released = take_up_to(deposit as int, old(ledger).reserved_of(identity));
                &&& r == Ok::<(), Error>(())
                &&& final(self).entries() == old(self).entries().remove(identity)
                &&& final(self).log() == old(self).log().push(
                    Event::ValueUnreserved(identity, deposit),
                ).push(Event::ProfileDeleted(identity))
                &&& final(ledger).reserved_of(identity) == old(ledger).reserved_of(identity)
                    - released
                &&& final(ledger).free_of(identity) == old(ledger).free_of(identity) + released
                &&& final(ledger).sink_total() == old(ledger).sink_total()
            }),
            forall|a: u64|
                a != identity ==> #[trigger] final(ledger).free_of(a) == old(ledger).free_of(a),
            forall|a: u64|
                a != identity ==> #[trigger] final(ledger).reserved_of(a)
                    == old(ledger).reserved_of(a),
            conserves(old(self).entries(), *old(ledger)) ==> conserves(
                final(self).entries(),
                *final(ledger),
            ),
            entries_bounded(old(self).entries(), old(self).max_length()) ==> entries_bounded(
                final(self).entries(),
                final(self).max_length(),
            ),
    {
        let ghost pre_entries = self.entries();
        let ghost pre_ledger = *ledger;
        let deposit: u64 = match self.store.get(identity) {
            Some(existing) => existing.deposit,
            None => {
                return Err(Error::NotRegistered);
            },
        };
        // The ledger reports how much it actually released; the emitted event
        // carries the requested deposit, as the contract states.
        let _released: u64 = ledger.unreserve(identity, deposit);
        self.event_log.push(Event::ValueUnreserved(identity, deposit));
        self.store.remove(identity);
        self.event_log.push(Event::ProfileDeleted(identity));
        proof {
            if conserves(pre_entries, pre_ledger) {
                assert forall|id: u64|
                    #[trigger] ledger.reserved_of(id) == if self.entries().contains_key(id) {
                        self.entries()[id].deposit as int
                    } else {
                        0
                    } by {
                    if id != identity {
                        assert(ledger.reserved_of(id) == pre_ledger.reserved_of(id));
                    }
                }
            }
        }
        Ok(())
    }

    /// Privileged removal of a target's entry, forfeiting its deposit.
    ///
    /// A non-privileged origin is rejected before the target is even looked
    /// up. On success the ledger forfeits up to the stored deposit from the
    /// target's reserve, the realized total is handed to the slashed-funds
    /// sink, and the entry is removed.
    pub fn force_remove<L: Ledger>(&mut self, ledger: &mut L, origin: Origin, target: u64) -> (r:
        Result<(), Error>)
        requires
            old(ledger).wf(),
        ensures
            final(ledger).wf(),
            final(self).max_length() == old(self).max_length(),
            final(self).deposit_value() == old(self).deposit_value(),
            old(self).log().is_prefix_of(final(self).log()),
            !origin.is_privileged() ==> ({
                &&& r == Err::<(), Error>(Error::Unauthorized)
                &&& *final(self) == *old(self)
                &&& *final(ledger) == *old(ledger)
            }),
            (origin.is_privileged() && !old(self).entries().contains_key(target)) ==> ({
                &&& r == Err::<(), Error>(Error::NotRegistered)
                &&& *final(self) == *old(self)
                &&& *final(ledger) == *old(ledger)
            }),
            (origin.is_privileged() && old(self).entries().contains_key(target)) ==> ({
                let deposit = old(self).entries()[target].deposit;
                let realized = take_up_to(deposit as int, old(ledger).reserved_of(target));
                &&& r == Ok::<(), Error>(())
                &&& final(self).entries() == old(self).entries().remove(target)
                &&& final(self).log() == old(self).log().push(
                    Event::SlashedBalance(target, realized as u64),
                ).push(Event::ProfileDeleted(target))
                &&& final(ledger).reserved_of(target) == old(ledger).reserved_of(target) - realized
                &&& final(ledger).free_of(target) == old(ledger).free_of(target)
                &&& final(ledger).sink_total() == saturating_add_u128(
                    old(ledger).sink_total(),
                    realized,
                )
            }),
            forall|a: u64|
                a != target ==> #[trigger] final(ledger).free_of(a) == old(ledger).free_of(a),
            forall|a: u64|
                a != target ==> #[trigger] final(ledger).reserved_of(a)
                    == old(ledger).reserved_of(a),
            conserves(old(self).entries(), *old(ledger)) ==> conserves(
                final(self).entries(),
                *final(ledger),
            ),
            entries_bounded(old(self).entries(), old(self).max_length()) ==> entries_bounded(
                final(self).entries(),
                final(self).max_length(),
            ),
    {
        let ghost pre_entries = self.entries();
        let ghost pre_ledger = *ledger;
        if !origin.check_privileged() {
            return Err(Error::Unauthorized);
        }
        let deposit: u64 = match self.store.get(target) {
            Some(existing) => existing.deposit,
            None => {
                return Err(Error::NotRegistered);
            },
        };
        let realized: u64 = ledger.slash_reserved(target, deposit);
        self.event_log.push(Event::SlashedBalance(target, realized));
        ledger.notify_forfeited(realized);
        self.store.remove(target);
        self.event_log.push(Event::ProfileDeleted(target));
        proof {
            if conserves(pre_entries, pre_ledger) {
                assert forall|id: u64|
                    #[trigger] ledger.reserved_of(id) == if self.entries().contains_key(id) {
                        self.entries()[id].deposit as int
                    } else {
                        0
                    } by {
                    if id != target {
                        assert(ledger.reserved_of(id) == pre_ledger.reserved_of(id));
                    }
                }
            }
        }
        Ok(())
    }

    /// Privileged overwrite of a target's entry, bypassing the ledger.
    ///
    /// Bounds are validated as for a submission. The existing deposit is
    /// carried over if the target has an entry; otherwise the new entry
    /// carries a zero deposit, backed by no reservation. No ledger call is
    /// made and no event is emitted.
    pub fn force_set_profile(
        &mut self,
        origin: Origin,
        target: u64,
        name: Vec<u8>,
        age: u8,
        title: Vec<u8>,
    ) -> (r: Result<(), Error>)
        ensures
            final(self).max_length() == old(self).max_length(),
            final(self).deposit_value() == old(self).deposit_value(),
            final(self).log() == old(self).log(),
            !origin.is_privileged() ==> ({
                &&& r == Err::<(), Error>(Error::Unauthorized)
                &&& *final(self) == *old(self)
            }),
            (origin.is_privileged() && !valid_lengths(name@, title@, old(self).max_length()))
                ==> ({
                &&& r == Err::<(), Error>(Error::TooLong)
                &&& *final(self) == *old(self)
            }),
            (origin.is_privileged() && valid_lengths(name@, title@, old(self).max_length()))
                ==> ({
                &&& r == Ok::<(), Error>(())
                &&& final(self).entries() == force_set_effect(
                    old(self).entries(),
                    target,
                    ProfileView { name: name@, age, title: title@ },
                )
            }),
            entries_bounded(old(self).entries(), old(self).max_length()) ==> entries_bounded(
                final(self).entries(),
                final(self).max_length(),
            ),
    {
        if !origin.check_privileged() {
            return Err(Error::Unauthorized);
        }
        if name.len() > self.config.max_length as usize {
            return Err(Error::TooLong);
        }
        if title.len() > self.config.max_length as usize {
            return Err(Error::TooLong);
        }
        let deposit: u64 = match self.store.get(target) {
            Some(existing) => existing.deposit,
            None => 0,
        };
        let profile = Profile { name, age, title };
        self.store.put(target, Entry { profile, deposit });
        Ok(())
    }
}

} // verus!
