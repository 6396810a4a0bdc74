//! Client-side session layer and a simulated storage vault for a
//! decentralized, content-addressed data network.
//!
//! The crate has two halves. The session half derives cryptographic identity
//! material, merges bootstrap contact sets, and gates every outbound mutation
//! behind a transfer-validation actor. The vault half applies the network's
//! ownership and publication-state rules to immutable-data requests against a
//! local store.

pub mod bootstrap;
pub mod config;
pub mod data;
pub mod errors;
pub mod file;
pub mod keys;
pub mod session;
pub mod store;
pub mod transfer;
pub mod vault;
