use vstd::prelude::*;

use vstd::map::*;

use crate::ledger::{take_up_to, Ledger};
use crate::profile::{EntryView, ProfileView};
use crate::registry::{conserves, force_set_effect, submit_effect};

verus! {

/// Conservation of reserved value holds at the start of a registry's life:
/// no entry is stored, and a ledger that holds nothing in reserve backs it.
/// Every operation's contract then carries the property forward.
pub proof fn law_conservation_initially<L: Ledger>(ledger: L)
    requires
        forall|a: u64| #[trigger] ledger.reserved_of(a) == 0,
    ensures
        conserves(Map::<u64, EntryView>::empty(), ledger),
{
}

/// Submitting identical input twice leaves the very entries a single
/// submission produces: the second pass finds the entry the first one wrote
/// and preserves its deposit while rewriting the same profile. (The second
/// pass also makes no ledger call, as `submit_profile`'s contract states for
/// an identity that already has an entry.)
pub proof fn law_submit_idempotent(
    entries: Map<u64, EntryView>,
    id: u64,
    profile: ProfileView,
    deposit_value: u64,
)
    ensures
        submit_effect(submit_effect(entries, id, profile, deposit_value), id, profile, deposit_value)
            == submit_effect(entries, id, profile, deposit_value),
{
    let once = submit_effect(entries, id, profile, deposit_value);
    let twice = submit_effect(once, id, profile, deposit_value);
    assert_maps_equal!(twice, once);
}

/// The privileged overwrite preserves conservation of reserved value even
/// though it never touches the ledger: an existing entry keeps its deposit,
/// and an absent identity, which conservation says has nothing in reserve,
/// gains an entry whose deposit is zero.
pub proof fn law_force_set_preserves_conservation<L: Ledger>(
    entries: Map<u64, EntryView>,
    ledger: L,
    id: u64,
    profile: ProfileView,
)
    requires
        conserves(entries, ledger),
    ensures
        conserves(force_set_effect(entries, id, profile), ledger),
{
    let updated = force_set_effect(entries, id, profile);
    assert forall|a: u64|
        #[trigger] ledger.reserved_of(a) == if updated.contains_key(a) {
            updated[a].deposit as int
        } else {
            0
        } by {
        assert(ledger.reserved_of(a) == if entries.contains_key(a) {
            entries[a].deposit as int
        } else {
            0
        });
    }
}

/// While conservation holds, a stored deposit is fully backed: a release or
/// forfeiture of the entry's deposit realizes exactly that deposit, never
/// less. This is why a withdrawal returns the whole deposit to the owner's
/// free balance and a privileged removal forfeits the whole deposit.
pub proof fn law_backed_deposit_fully_realized<L: Ledger>(
    entries: Map<u64, EntryView>,
    ledger: L,
    id: u64,
)
    requires
        conserves(entries, ledger),
        entries.contains_key(id),
    ensures
        take_up_to(entries[id].deposit as int, ledger.reserved_of(id)) == entries[id].deposit as int,
{
}

} // verus!
