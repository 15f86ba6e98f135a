//! An account-keyed registry that stores one bounded profile record per
//! identity and ties each stored record to a security deposit held in
//! reserve on an external ledger.
//!
//! The registry guarantees that reservations are created when an entry is
//! first stored, preserved unchanged across updates, released on voluntary
//! withdrawal, and forfeited under privileged removal. The ledger itself is
//! reached through the [`ledger::Ledger`] trait, whose contract states what
//! each call does to the caller's free and reserved balances; a verified
//! in-memory implementation is provided for use in tests and simulations.

pub mod errors;
pub mod events;
pub mod laws;
pub mod ledger;
pub mod profile;
pub mod registry;
pub mod store;

pub use errors::Error;
pub use events::Event;
pub use ledger::{InMemoryLedger, Ledger};
pub use profile::{Entry, EntryView, Profile, ProfileView};
pub use registry::{Origin, Registry, RegistryConfig};
pub use store::RecordStore;
