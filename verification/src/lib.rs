//! A delegated-authorization gate for one-time transfers out of a custodial
//! vault. A companion signature-verification step runs earlier in the same
//! atomic transaction; this library proves that step ran against the expected
//! key and message shape, decodes the authorization message, and applies a
//! checked balance move. Every byte of the descriptor is attacker-influenced,
//! so each field read is bounds-checked and each locality rule is enforced
//! before any balance changes.

pub mod bytes;
pub mod claim;
pub mod descriptor;
pub mod ed25519_call;
pub mod errors;
pub mod instructions;
pub mod message;
pub mod states;
