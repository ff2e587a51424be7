//! Atomic provisioning of a new fungible-token class.
//!
//! The library derives program-owned addresses for a mint and its metadata
//! record, validates the caller-supplied account handles against those
//! derivations, and models the all-or-nothing creation of the mint record,
//! the metadata record and the creator's associated holding account.
//! Address derivation itself is performed by the runtime's own seed-hashing
//! functions, reached through a small set of trusted wrappers.

pub mod addr;
pub mod derive;
pub mod ledger;
pub mod ops;
pub mod laws;
pub mod records;
