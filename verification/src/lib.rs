//! Core logic of a confidentiality-preserving ledger account protocol.
//!
//! The crate decodes instruction bytes into one of four typed instructions,
//! routes each instruction through a state-transition processor that enforces
//! account-lifecycle, balance-conservation and replay-protection invariants,
//! and checks zero-knowledge transfer and selective-disclosure proofs through
//! injected verifier capabilities.

pub mod capabilities;
pub mod error;
pub mod instruction;
pub mod processor;
pub mod state;
