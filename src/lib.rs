//! Contracts for a replicated execution host, as pure decision functions:
//! an escrow that settles one payment between a buyer and a seller, a
//! rate-limited dispenser, and a key-value store. The host loads each
//! contract's record, hands it to these functions with the caller, the
//! attached funds and the clock, then saves what they return and executes
//! the transfers they emit.
pub mod common;
pub mod crud;
pub mod escrow;
pub mod escrow_history;
pub mod faucet;
