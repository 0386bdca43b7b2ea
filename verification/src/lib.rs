//! A deterministic reward-ledger state-transition engine.
//!
//! Given a user's prior aggregate statistics ([`profile::UserProfile`]) and a
//! newly reported work session (focus / rest / cancellation), the engine
//! validates the report, computes a point delta, updates the running
//! statistics, and produces an immutable [`session::SessionRecord`] for the
//! next sequence slot. Every computation is total, overflow-checked, and free
//! of non-reproducible inputs, so independent replicas reach identical states
//! from identical inputs.
//!
//! The host ledger supplies the trusted current timestamp, the authenticated
//! caller identity, keyed storage for the records, and the optional external
//! balance proof that gates the reward multiplier; the engine itself is a pure
//! function of those plain values.

pub mod engine;
pub mod errors;
pub mod profile;
pub mod rewards;
pub mod session;
pub mod trail;
pub mod validate;
