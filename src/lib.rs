//! Accounting core of a binary prediction-market vault: fee and payout
//! arithmetic, market lifecycle, nullifier registry and allowlist proofs.

pub mod types;
pub mod math;
pub mod digest;
pub mod registry;
pub mod market;
pub mod laws;
