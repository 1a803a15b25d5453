//! One-time creation of the vault record.

use vstd::prelude::*;

use crate::errors::ErrorCode;
use crate::state::vault::Vault;

verus! {

/// Highest admissible leverage ceiling (2.00x).
pub const MAX_ALLOWED_LEVERAGE_BPS: u16 = 20_000;

/// Lowest admissible health-factor floor (1.00).
pub const MIN_ALLOWED_HF_FLOOR_BPS: u16 = 10_000;

/// Slots after which an oracle reading counts as stale (about 60 seconds).
pub const ORACLE_STALE_SLOTS: u64 = 150;

/// Peg deviation that triggers contraction, in basis points.
pub const PEG_WARN_BPS: u16 = 10;

/// Peg deviation that triggers a full exit, in basis points.
pub const PEG_EXIT_BPS: u16 = 25;

/// Peg deviation that triggers panic, in basis points.
pub const PEG_PANIC_BPS: u16 = 50;

/// Minimum slots between control-loop runs (about 4 hours).
pub const COOLDOWN_SLOTS: u64 = 30_000;

/// Wall-clock seconds that a contraction locks out re-expansion.
pub const REEXPANSION_DELAY_SEC: i64 = 30_000;

/// The vault record that initialization produces: empty totals, zeroed
/// clocks, the fixed configuration block, and the caller's two tunables —
/// rejected when the leverage ceiling exceeds 2.00x or the health-factor
/// floor lies below 1.00.
pub open spec fn spec_initialized_vault(
    authority: u64,
    usdc_mint: u64,
    vault_usdc: u64,
    share_mint: u64,
    pyth_usdc_feed: u64,
    max_leverage_bps: u16,
    hf_floor_bps: u16,
) -> Result<Vault, ErrorCode> {
    if max_leverage_bps > MAX_ALLOWED_LEVERAGE_BPS {
        Err(ErrorCode::InvalidLeverage)
    } else if hf_floor_bps < MIN_ALLOWED_HF_FLOOR_BPS {
        Err(ErrorCode::InvalidHealthFactor)
    } else {
        Ok(
            Vault {
                authority,
                usdc_mint,
                vault_usdc,
                share_mint,
                pyth_usdc_feed,
                total_supplied: 0,
                total_borrowed: 0,
                total_shares: 0,
                last_rebalance_slot: 0,
                reexpansion_unlocked_at: 0,
                max_leverage_bps,
                hf_floor_bps,
                oracle_stale_slots: ORACLE_STALE_SLOTS,
                peg_warn_bps: PEG_WARN_BPS,
                peg_exit_bps: PEG_EXIT_BPS,
                peg_panic_bps: PEG_PANIC_BPS,
                cooldown_slots: COOLDOWN_SLOTS,
                reexpansion_delay_sec: REEXPANSION_DELAY_SEC,
            },
        )
    }
}

/// Create the vault singleton, validating the two caller-chosen tunables
/// and stamping the fixed configuration block.
pub fn handler(
    authority: u64,
    usdc_mint: u64,
    vault_usdc: u64,
    share_mint: u64,
    pyth_usdc_feed: u64,
    max_leverage_bps: u16,
    hf_floor_bps: u16,
) -> (r: Result<Vault, ErrorCode>)
    ensures
        r == spec_initialized_vault(
            authority,
            usdc_mint,
            vault_usdc,
            share_mint,
            pyth_usdc_feed,
            max_leverage_bps,
            hf_floor_bps,
        ),
{
    if max_leverage_bps > MAX_ALLOWED_LEVERAGE_BPS {
        return Err(ErrorCode::InvalidLeverage);
    }
    if hf_floor_bps < MIN_ALLOWED_HF_FLOOR_BPS {
        return Err(ErrorCode::InvalidHealthFactor);
    }
    Ok(
        Vault {
            authority,
            usdc_mint,
            vault_usdc,
            share_mint,
            pyth_usdc_feed,
            total_supplied: 0,
            total_borrowed: 0,
            total_shares: 0,
            last_rebalance_slot: 0,
            reexpansion_unlocked_at: 0,
            max_leverage_bps,
            hf_floor_bps,
            oracle_stale_slots: ORACLE_STALE_SLOTS,
            peg_warn_bps: PEG_WARN_BPS,
            peg_exit_bps: PEG_EXIT_BPS,
            peg_panic_bps: PEG_PANIC_BPS,
            cooldown_slots: COOLDOWN_SLOTS,
            reexpansion_delay_sec: REEXPANSION_DELAY_SEC,
        },
    )
}

} // verus!
