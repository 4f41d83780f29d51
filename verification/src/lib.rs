//! A minimal custodial vault: a per-owner fund-holding account pair derived
//! deterministically from the owner's key, with owner-only withdrawal.
//!
//! The vault keeps its metadata in a *state* account and its funds in a
//! separate *funds* account; both addresses are derived from seeds, so the
//! program itself (not a private key) controls them.

pub mod addresses;
pub mod keys;
pub mod laws;
pub mod record;
pub mod vault;
