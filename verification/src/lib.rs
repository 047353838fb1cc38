//! A coin-wrapping ledger.
//!
//! The library accepts a configured native asset, mints a matching amount of
//! a fungible token on an external token ledger, and redeems tokens back into
//! the native asset through burn-and-release. Every operation validates its
//! caller and funds against the persisted configuration and returns an ordered
//! list of outgoing actions for the host to execute; no operation performs an
//! external call itself or assumes one has already completed.

pub mod contract;
pub mod error;
pub mod msg;
pub mod state;
