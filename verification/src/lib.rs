//! Leveraged stablecoin vault controller.
//!
//! The crate verifies the decision core of a single-asset leveraged vault:
//! oracle price fusion and quality gating, proportional share accounting for
//! deposits and withdrawals, and the leverage state machine with its cooldown
//! and re-expansion locks.  Token movement, account plumbing and the lending
//! venue itself are external collaborators: callers hand the library plain
//! values (account bytes, clock readings, a health factor) and perform the
//! capital movements that the returned decisions call for.

pub mod errors;
pub mod instructions;
pub mod lending;
pub mod logic;
pub mod oracles;
pub mod state;

use vstd::prelude::*;

use crate::errors::ErrorCode;
use crate::instructions::deposit::spec_deposit;
use crate::instructions::initialize_vault::spec_initialized_vault;
use crate::instructions::rebalance::RebalanceOutcome;
use crate::instructions::rebalance::spec_rebalance;
use crate::instructions::withdraw::spec_withdraw;
use crate::state::user_position::UserPosition;
use crate::state::vault::Vault;

verus! {

/// Create the vault singleton with the caller-chosen leverage ceiling and
/// health-factor floor; the caller persists the returned record.
pub fn initialize_vault(
    authority: u64,
    usdc_mint: u64,
    vault_usdc: u64,
    share_mint: u64,
    pyth_usdc_feed: u64,
    max_leverage_bps: u16,
    hf_floor_bps: u16,
) -> (r: Result<Vault, ErrorCode>)
    ensures
        r == spec_initialized_vault(
            authority,
            usdc_mint,
            vault_usdc,
            share_mint,
            pyth_usdc_feed,
            max_leverage_bps,
            hf_floor_bps,
        ),
{
    instructions::initialize_vault::handler(
        authority,
        usdc_mint,
        vault_usdc,
        share_mint,
        pyth_usdc_feed,
        max_leverage_bps,
        hf_floor_bps,
    )
}

/// Deposit `amount` asset units for `user`, minting shares at the current
/// exchange rate; both records mutate only when the whole deposit succeeds.
pub fn deposit(
    vault: &mut Vault,
    user_position: &mut UserPosition,
    user: u64,
    amount: u64,
    now_ts: i64,
) -> (r: Result<u64, ErrorCode>)
    requires
        old(user_position).consistent_with(*old(vault)),
    ensures
        match spec_deposit(*old(vault), *old(user_position), user, amount, now_ts) {
            Ok((new_vault, new_position, shares)) => {
                &&& r == Ok::<u64, ErrorCode>(shares)
                &&& *final(vault) == new_vault
                &&& *final(user_position) == new_position
            },
            Err(e) => {
                &&& r == Err::<u64, ErrorCode>(e)
                &&& *final(vault) == *old(vault)
                &&& *final(user_position) == *old(user_position)
            },
        },
        final(user_position).consistent_with(*final(vault)),
{
    instructions::deposit::handler(vault, user_position, user, amount, now_ts)
}

/// Withdraw by burning `shares` of the caller's position; the vault's
/// liquid balance must cover the amount owed before anything mutates.
pub fn withdraw(
    vault: &mut Vault,
    user_position: &mut UserPosition,
    shares: u64,
    vault_usdc_balance: u64,
) -> (r: Result<u64, ErrorCode>)
    requires
        old(user_position).consistent_with(*old(vault)),
    ensures
        match spec_withdraw(*old(vault), *old(user_position), shares, vault_usdc_balance) {
            Ok((new_vault, new_position, amount)) => {
                &&& r == Ok::<u64, ErrorCode>(amount)
                &&& *final(vault) == new_vault
                &&& *final(user_position) == new_position
            },
            Err(e) => {
                &&& r == Err::<u64, ErrorCode>(e)
                &&& *final(vault) == *old(vault)
                &&& *final(user_position) == *old(user_position)
            },
        },
        final(user_position).consistent_with(*final(vault)),
{
    instructions::withdraw::handler(vault, user_position, shares, vault_usdc_balance)
}

/// Run one control-loop invocation: cooldown gate, oracle fusion, state
/// selection, clock updates.  The caller performs the capital action of
/// the returned state.
pub fn rebalance(
    vault: &mut Vault,
    pyth_data: &Vec<u8>,
    switchboard_data: &Vec<u8>,
    current_slot: u64,
    now_ts: i64,
    health_factor_bps: u16,
) -> (r: Result<RebalanceOutcome, ErrorCode>)
    ensures
        match spec_rebalance(
            *old(vault),
            pyth_data@,
            switchboard_data@,
            current_slot,
            now_ts,
            health_factor_bps,
        ) {
            Ok((new_vault, outcome)) => {
                &&& r == Ok::<RebalanceOutcome, ErrorCode>(outcome)
                &&& *final(vault) == new_vault
            },
            Err(e) => {
                &&& r == Err::<RebalanceOutcome, ErrorCode>(e)
                &&& *final(vault) == *old(vault)
            },
        },
{
    instructions::rebalance::handler(
        vault,
        pyth_data,
        switchboard_data,
        current_slot,
        now_ts,
        health_factor_bps,
    )
}

} // verus!
