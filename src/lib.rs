//! A cryptographic trust anchor that binds one symmetric key to a verified
//! lifecycle state machine, a health-checked entropy pipeline and a
//! monotonic clock, and hands out single-purpose capabilities over it.
//!
//! - [`fsm`]: the key-lifecycle state machine and its transition table.
//! - [`entropy`]: hardware random sources, health tests and conditioning.
//! - [`clock`]: a monotonic clock over an untrusted hardware counter.
//! - [`aead`]: sealing and opening payloads with AES-256-GCM.
//! - [`ciem`]: the anchor itself and the capabilities it issues.

pub mod aead;
pub mod bytes;
pub mod ciem;
pub mod clock;
pub mod entropy;
pub mod error;
pub mod fsm;
pub mod profile;
