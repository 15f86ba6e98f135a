use vstd::prelude::*;

verus! {

/// One observable state transition of the registry.
///
/// Events are appended to the registry's log in the order in which the
/// transitions they describe take effect; nothing else is externally
/// observable besides the stored entries and the ledger calls themselves.
#[derive(Clone, Copy, Debug, PartialEq, Eq, Structural)]
pub enum Event {
    /// The identity's profile was replaced; its deposit was left untouched.
    ProfileUpdated(u64),
    /// An entry was written for the identity.
    ProfileAdded(u64),
    /// The identity's entry was removed.
    ProfileDeleted(u64),
    /// The given amount was reserved from the identity's free balance.
    ValueReserved(u64, u64),
    /// The given amount was released back to the identity's free balance.
    ValueUnreserved(u64, u64),
    /// The given total was forfeited from the identity's reserved balance.
    SlashedBalance(u64, u64),
}

} // verus!
