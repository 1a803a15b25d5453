//! The periodic control loop: cooldown gate, oracle fusion, state
//! selection, and the clock updates its outcome implies.

use vstd::prelude::*;

use crate::errors::ErrorCode;
use crate::logic::state_machine::VaultState;
use crate::logic::state_machine::determine_vault_state;
use crate::logic::state_machine::spec_vault_state;
use crate::oracles::DEFAULT_MAX_DEVIATION_BPS;
use crate::oracles::OracleData;
use crate::oracles::fetch_oracle_data;
use crate::oracles::spec_fetch_oracle_data;
use crate::oracles::spec_oracle_quality;
use crate::oracles::validate_oracle_quality;
use crate::state::vault::Vault;

verus! {

/// What one successful control-loop run decided: the selected state, the
/// fused oracle reading it was selected from, and the advisory verdict of
/// the oracle quality gate.
#[derive(Clone, Copy, Debug, PartialEq, Eq, Structural)]
pub struct RebalanceOutcome {
    /// The state the cascade selected; its capital action is the caller's.
    pub state: VaultState,
    /// The fused oracle reading of this invocation.
    pub oracle: OracleData,
    /// Advisory quality verdict; false is reported, never a halt.
    pub oracle_quality_ok: bool,
}

/// The whole effect of one control-loop invocation on the vault record.
///
/// In order: the tick cooldown must have elapsed; the oracle pipeline and
/// the quality gate must be readable; then the selected state decides.
/// `Panic` fails the invocation, `Loop` additionally requires the
/// re-expansion lock to have expired, and `Contract` arms that lock for
/// `reexpansion_delay_sec` from now.  Every success advances
/// `last_rebalance_slot` to the current slot; no failure moves either
/// clock.
pub open spec fn spec_rebalance(
    vault: Vault,
    pyth: Seq<u8>,
    switchboard: Seq<u8>,
    current_slot: u64,
    now_ts: i64,
    health_factor_bps: u16,
) -> Result<(Vault, RebalanceOutcome), ErrorCode> {
    if (current_slot as int) < vault.last_rebalance_slot + vault.cooldown_slots {
        Err(ErrorCode::RebalanceCooldown)
    } else {
        match spec_fetch_oracle_data(
            pyth,
            switchboard,
            vault.oracle_stale_slots,
            DEFAULT_MAX_DEVIATION_BPS,
            now_ts as int,
            current_slot,
        ) {
            Err(e) => Err(e),
            Ok(od) => match spec_oracle_quality(pyth, switchboard) {
                Err(e) => Err(e),
                Ok(quality_ok) => {
                    let state = spec_vault_state(
                        od.peg_deviation_bps,
                        od.is_stale,
                        od.has_conflict,
                        health_factor_bps,
                        vault,
                    );
                    let outcome = RebalanceOutcome {
                        state,
                        oracle: od,
                        oracle_quality_ok: quality_ok,
                    };
                    match state {
                        VaultState::Panic => Err(ErrorCode::VaultInPanicState),
                        VaultState::Loop => if now_ts < vault.reexpansion_unlocked_at {
                            Err(ErrorCode::ReexpansionCooldown)
                        } else {
                            Ok((Vault { last_rebalance_slot: current_slot, ..vault }, outcome))
                        },
                        VaultState::Contract => if now_ts + vault.reexpansion_delay_sec > i64::MAX
                            || now_ts + vault.reexpansion_delay_sec < i64::MIN {
                            Err(ErrorCode::MathOverflow)
                        } else {
                            Ok(
                                (
                                    Vault {
                                        last_rebalance_slot: current_slot,
                                        reexpansion_unlocked_at: (now_ts
                                            + vault.reexpansion_delay_sec) as i64,
                                        ..vault
                                    },
                                    outcome,
                                ),
                            )
                        },
                        VaultState::Exit => Ok(
                            (Vault { last_rebalance_slot: current_slot, ..vault }, outcome),
                        ),
                        VaultState::Idle => Ok(
                            (Vault { last_rebalance_slot: current_slot, ..vault }, outcome),
                        ),
                    }
                },
            },
        }
    }
}

/// Run one control-loop invocation against the vault.
///
/// The caller supplies the raw bytes of both oracle accounts, the two
/// clocks, and the health factor the lending venue reports; it then
/// performs the capital action of the returned state.  The vault record
/// mutates only on success.
pub fn handler(
    vault: &mut Vault,
    pyth_data: &Vec<u8>,
    switchboard_data: &Vec<u8>,
    current_slot: u64,
    now_ts: i64,
    health_factor_bps: u16,
) -> (r: Result<RebalanceOutcome, ErrorCode>)
    ensures
        match spec_rebalance(
            *old(vault),
            pyth_data@,
            switchboard_data@,
            current_slot,
            now_ts,
            health_factor_bps,
        ) {
            Ok((new_vault, outcome)) => {
                &&& r == Ok::<RebalanceOutcome, ErrorCode>(outcome)
                &&& *final(vault) == new_vault
            },
            Err(e) => {
                &&& r == Err::<RebalanceOutcome, ErrorCode>(e)
                &&& *final(vault) == *old(vault)
            },
        },
{
    if (current_slot as u128) < (vault.last_rebalance_slot as u128) + (vault.cooldown_slots
        as u128) {
        return Err(ErrorCode::RebalanceCooldown);
    }
    let oracle = match fetch_oracle_data(
        pyth_data,
        switchboard_data,
        vault.oracle_stale_slots,
        DEFAULT_MAX_DEVIATION_BPS,
        now_ts,
        current_slot,
    ) {
        Ok(od) => od,
        Err(e) => {
            return Err(e);
        },
    };
    let oracle_quality_ok = match validate_oracle_quality(pyth_data, switchboard_data) {
        Ok(q) => q,
        Err(e) => {
            return Err(e);
        },
    };
    let state = determine_vault_state(
        oracle.peg_deviation_bps,
        oracle.is_stale,
        oracle.has_conflict,
        health_factor_bps,
        vault,
    );
    let outcome = RebalanceOutcome { state, oracle, oracle_quality_ok };
    match state {
        VaultState::Panic => Err(ErrorCode::VaultInPanicState),
        VaultState::Loop => {
            if now_ts < vault.reexpansion_unlocked_at {
                return Err(ErrorCode::ReexpansionCooldown);
            }
            vault.last_rebalance_slot = current_slot;
            Ok(outcome)
        },
        VaultState::Contract => {
            let unlocked_at = match now_ts.checked_add(vault.reexpansion_delay_sec) {
                Some(t) => t,
                None => {
                    return Err(ErrorCode::MathOverflow);
                },
            };
            vault.reexpansion_unlocked_at = unlocked_at;
            vault.last_rebalance_slot = current_slot;
            Ok(outcome)
        },
        VaultState::Exit => {
            vault.last_rebalance_slot = current_slot;
            Ok(outcome)
        },
        VaultState::Idle => {
            vault.last_rebalance_slot = current_slot;
            Ok(outcome)
        },
    }
}

} // verus!
