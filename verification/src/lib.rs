//! A single-instance financial option as a verified state machine.
//!
//! One record holds the option: a creator who locked collateral, a current
//! owner, the counter-offer the owner must pay to exercise, and an expiry
//! height. The operations — instantiate, transfer, exercise, burn — are pure
//! functions from the stored record and the call's context (height, sender,
//! attached funds) to the new record and a response carrying the asset
//! transfers to request. The hosting execution context performs storage and
//! asset movement; this crate decides.

pub mod error;
pub mod msg;
pub mod state;
pub mod contract;
