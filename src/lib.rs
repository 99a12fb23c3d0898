//! Verification and settlement engine of an x402 payment facilitator.
//!
//! The engine checks a signed EIP-3009 transfer authorization against the
//! requirements a seller declared, recovers and checks its signer, guards
//! against replayed nonces, and drives settlement as a sequence of decisions
//! taken on what the chain reports.
pub mod authorization;
pub mod codec;
pub mod crypto;
pub mod eip712;
pub mod engine;
pub mod error;
pub mod ledger;
pub mod matcher;
pub mod registry;
pub mod types;
pub mod wire;
