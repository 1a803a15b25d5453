//! The leverage state machine: a pure priority cascade from oracle and
//! health signals to one of five operating states.

use vstd::prelude::*;

use crate::state::vault::Vault;

verus! {

/// The five operating states of the vault, selected fresh on every
/// control-loop invocation and never themselves persisted.
#[derive(Clone, Copy, Debug, PartialEq, Eq, Structural)]
pub enum VaultState {
    /// No capital action; the loop still advances its clock.
    Idle,
    /// Expand leverage toward the configured ceiling.
    Loop,
    /// Partially de-leverage and lock out re-expansion.
    Contract,
    /// Unwind all borrowed and supplied capital.
    Exit,
    /// Fail the invocation; leverage actions are blocked.
    Panic,
}

/// The state selected for the given signals: a strict priority cascade in
/// which the first matching rule wins.  The ordering is itself a safety
/// contract: panic conditions dominate exit, exit dominates contraction,
/// and only unambiguously healthy readings permit expansion.
pub open spec fn spec_vault_state(
    peg_bps: u16,
    oracle_stale: bool,
    oracle_conflict: bool,
    health_factor_bps: u16,
    vault: Vault,
) -> VaultState {
    if oracle_stale || oracle_conflict || peg_bps > vault.peg_panic_bps {
        VaultState::Panic
    } else if peg_bps > vault.peg_exit_bps {
        VaultState::Exit
    } else if peg_bps > vault.peg_warn_bps || health_factor_bps < vault.hf_floor_bps {
        VaultState::Contract
    } else if peg_bps < vault.peg_warn_bps && health_factor_bps >= vault.hf_floor_bps {
        VaultState::Loop
    } else {
        VaultState::Idle
    }
}

/// Determine the vault's current state from the oracle reading, the venue's
/// health factor, and the vault's configured thresholds.
pub fn determine_vault_state(
    peg_bps: u16,
    oracle_stale: bool,
    oracle_conflict: bool,
    health_factor_bps: u16,
    vault: &Vault,
) -> (state: VaultState)
    ensures
        state == spec_vault_state(peg_bps, oracle_stale, oracle_conflict, health_factor_bps, *vault),
{
    if oracle_stale || oracle_conflict || peg_bps > vault.peg_panic_bps {
        return VaultState::Panic;
    }
    if peg_bps > vault.peg_exit_bps {
        return VaultState::Exit;
    }
    if peg_bps > vault.peg_warn_bps || health_factor_bps < vault.hf_floor_bps {
        return VaultState::Contract;
    }
    if peg_bps < vault.peg_warn_bps && health_factor_bps >= vault.hf_floor_bps {
        return VaultState::Loop;
    }
    VaultState::Idle
}

/// Absolute peg deviation of a price from the 1.000000 reference (six
/// implied decimals), in basis points, clamped to the representable range.
pub open spec fn spec_peg_bps(price: int) -> int {
    let deviation = if price <= 1_000_000 {
        1_000_000 - price
    } else {
        price - 1_000_000
    };
    let bps = (deviation * 10000) / 1_000_000;
    if bps > u16::MAX {
        u16::MAX as int
    } else {
        bps
    }
}

/// Calculate peg deviation from $1.00 in basis points, using widened
/// intermediate arithmetic; a deviation beyond `u16::MAX` basis points
/// saturates rather than truncates.
pub fn calculate_peg_bps(price: i64) -> (bps: u16)
    ensures
        bps == spec_peg_bps(price as int),
{
    let p = price as i128;
    let deviation: i128 = if p <= 1_000_000 {
        1_000_000 - p
    } else {
        p - 1_000_000
    };
    let wide: i128 = deviation * 10000 / 1_000_000;
    if wide > u16::MAX as i128 {
        u16::MAX
    } else {
        wide as u16
    }
}

/// The panic rule dominates the whole cascade: a stale reading, an
/// inter-feed conflict, or a peg deviation beyond the panic threshold
/// selects `Panic` whatever the health factor and the other signals say.
pub proof fn lemma_panic_dominates(
    peg_bps: u16,
    oracle_stale: bool,
    oracle_conflict: bool,
    health_factor_bps: u16,
    vault: Vault,
)
    requires
        oracle_stale || oracle_conflict || peg_bps > vault.peg_panic_bps,
    ensures
        spec_vault_state(peg_bps, oracle_stale, oracle_conflict, health_factor_bps, vault)
            == VaultState::Panic,
{
}

} // verus!
