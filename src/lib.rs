//! Conditional order engine for per-owner vaults: deterministic addressing of
//! vault and order records, the order lifecycle, trigger evaluation and the
//! authorization checks that guard every transition.

pub mod address;
pub mod state;
pub mod trigger;
pub mod instructions;
pub mod laws;
