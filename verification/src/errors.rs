use vstd::prelude::*;

verus! {

/// The failures a registry operation can report.
///
/// Every failed operation leaves the registry and the ledger exactly as they
/// were before the call; an error is a plain return value, never a fault.
#[derive(Clone, Copy, Debug, PartialEq, Eq, Structural)]
pub enum Error {
    /// A submitted name or title exceeds the configured maximum length.
    TooLong,
    /// The operation needs an existing entry for the identity, and none is stored.
    NotRegistered,
    /// The ledger could not reserve the deposit from the identity's free balance.
    InsufficientBalance,
    /// A privileged operation was attempted by a non-privileged origin.
    Unauthorized,
}

} // verus!
