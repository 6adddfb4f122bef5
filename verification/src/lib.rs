//! Foundational value types of a distributed ledger protocol: ed25519
//! signing keys and signatures with a canonical base-58 text encoding, and a
//! protocol-version feature-gating registry.

pub mod bytes;
pub mod errors;
pub mod serialize;
pub mod signature;
pub mod types;
pub mod version;
