//! Configuration-and-launch core of a bonding-curve token launchpad.
//!
//! The library models the ledger state that the program reads and writes as
//! plain values: storage slots hold raw tagged bytes, balances are integers,
//! and identities are opaque 64-bit keys. Every decision the program makes —
//! authority checks, range validation, storage-deposit accounting, and the
//! all-or-nothing launch protocol — is executable code verified against the
//! contracts in this crate. The host that runs it performs the actual ledger
//! side effects (account creation, transfers, minting, metadata attachment)
//! from the outcomes these functions return.

pub mod codec;
pub mod config;
pub mod configure;
pub mod create;
pub mod curve;
pub mod errors;
pub mod range;
