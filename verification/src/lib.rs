//! Voter-plugin registrar initialization for an spl-governance realm.
//!
//! The library models the accounts an initializer instruction receives,
//! validates them (program executability, realm ownership, governing mint
//! identity, realm authority), and records the resulting `Registrar`
//! configuration in a store keyed by the (realm, governing token mint)
//! pair, mirroring the exclusive-create semantics of a derived storage
//! address.

pub mod error;
pub mod identity;
pub mod instruction;
pub mod realm;
pub mod registrar;
