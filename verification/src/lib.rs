//! Tiered staking-deposit program.
//!
//! Users deposit the base asset ("orai"); the program converts the deposit to
//! a reference-currency (USD) value through a price oracle, assigns a tier
//! from a descending threshold table, and splits the delegated funds across a
//! weighted validator set. Withdrawals wait out an unbonding delay in a
//! per-address queue and are settled by a later claim. An admin role manages
//! reward collection and redelegation.
//!
//! Every state transition is a pure function from the stored state and the
//! request's inputs to the new state and a list of requested effects (bank
//! sends, delegations, and so on); the host that executes those effects, the
//! persistent storage, and the price queries live outside this crate.

pub mod band;
pub mod contract;
pub mod error;
pub mod laws;
pub mod msg;
pub mod state;
