//! The error taxonomy: every failing request aborts with exactly one of
//! these, and no state change.

use vstd::prelude::*;

verus! {

/// Why a request failed.
///
/// Configuration errors (`EmptyDeposits`, `DepositsNotDecreasing`,
/// `InvalidStatus`) are fatal at initialization or decoding; `Unauthorized`
/// covers non-admin callers of admin actions; the funds errors (`NoFunds`,
/// `ZeroAmount`, `UnsupportedToken`, `MultipleFunds`) reject invalid attached
/// funds; the state errors (`ContractStopped`, `ReachedMaxTier`,
/// `InsufficientDeposit`, `NothingToClaim`, `NothingToWithdraw`,
/// `SameValidator`, `PartialRedelegation`) reject requests the current state
/// does not allow; `Arithmetic` is any checked overflow, underflow or
/// division by zero, never silently saturated.
#[derive(Clone, Copy, Debug, PartialEq, Eq, Structural)]
pub enum ContractError {
    EmptyDeposits,
    DepositsNotDecreasing,
    InvalidStatus,
    Unauthorized,
    NoFunds,
    ZeroAmount,
    UnsupportedToken,
    MultipleFunds,
    ContractStopped,
    ReachedMaxTier,
    /// The deposit left the cumulative USD value inside the current tier;
    /// the fields report the shortfall to the next tier, in USD and in the
    /// base asset at the call's exchange-rate snapshot.
    InsufficientDeposit { expected_usd: u128, expected_orai: u128 },
    NothingToClaim,
    NothingToWithdraw,
    SameValidator,
    PartialRedelegation,
    Arithmetic,
}

} // verus!
