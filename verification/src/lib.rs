//! A one-time, authorization-gated fee payment for a farm resource.
//!
//! A farm record lives in an account-based ledger as a small byte slot
//! holding its owner, a derivation nonce, and an "allowed" flag. Before the
//! farm may be used, its owner must pay a fixed fee exactly once. This crate
//! holds the verified core of that gate: the instruction and record codecs,
//! the authority derivation, the validation sequence that guards the
//! transition, and the commit that follows a successful fee transfer. The
//! surrounding runtime adapter performs the actual token transfer and the
//! account reads and writes, driven by the values this crate produces.

pub mod constant;
pub mod error;
pub mod instruction;
pub mod keys;
pub mod state;
pub mod processor;
