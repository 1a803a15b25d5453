//! The stable error taxonomy of the vault.
//!
//! Every failure anywhere in a vault transaction surfaces as one of these
//! named values; no operation wraps, truncates or leaves partial state behind.

use vstd::prelude::*;

verus! {

/// Error kinds returned by the vault's entry points.
#[derive(Clone, Copy, Debug, PartialEq, Eq, Structural)]
pub enum ErrorCode {
    /// The control loop selected the panic state; only withdrawals remain permitted.
    VaultInPanicState,
    /// The tick-based rebalance cooldown has not elapsed.
    RebalanceCooldown,
    /// The wall-clock re-expansion delay has not elapsed.
    ReexpansionCooldown,
    /// An oracle price is stale.
    OraclePriceStale,
    /// The two oracle feeds disagree beyond the allowed deviation.
    OraclePriceConflict,
    /// The Pyth feed is unreadable, non-trading, or non-positive.
    PythPriceUnavailable,
    /// The Switchboard feed is unreadable or non-positive.
    SwitchboardPriceUnavailable,
    /// A withdrawal exceeds owned shares or available liquidity.
    InsufficientEquity,
    /// A checked or widened computation cannot be represented.
    MathOverflow,
    /// The configured leverage ceiling is out of range.
    InvalidLeverage,
    /// The configured health-factor floor is out of range.
    InvalidHealthFactor,
}

} // verus!
