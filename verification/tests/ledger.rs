//! Share accounting: deposits, withdrawals, equity and leverage.

use aegis_vault::deposit;
use aegis_vault::errors::ErrorCode;
use aegis_vault::initialize_vault;
use aegis_vault::state::user_position::UserPosition;
use aegis_vault::state::vault::Vault;
use aegis_vault::withdraw;

fn fresh_vault() -> Vault {
    initialize_vault(1, 2, 3, 4, 5, 15_000, 24_000).unwrap()
}

fn fresh_position() -> UserPosition {
    UserPosition { owner: 0, shares: 0, deposited_at: 0 }
}

#[test]
fn initialize_sets_configuration() {
    let vault = fresh_vault();
    assert_eq!(vault.total_supplied, 0);
    assert_eq!(vault.total_borrowed, 0);
    assert_eq!(vault.total_shares, 0);
    assert_eq!(vault.last_rebalance_slot, 0);
    assert_eq!(vault.reexpansion_unlocked_at, 0);
    assert_eq!(vault.max_leverage_bps, 15_000);
    assert_eq!(vault.hf_floor_bps, 24_000);
    assert_eq!(vault.oracle_stale_slots, 150);
    assert_eq!(vault.peg_warn_bps, 10);
    assert_eq!(vault.peg_exit_bps, 25);
    assert_eq!(vault.peg_panic_bps, 50);
    assert_eq!(vault.cooldown_slots, 30_000);
    assert_eq!(vault.reexpansion_delay_sec, 30_000);
}

#[test]
fn initialize_rejects_excessive_leverage() {
    assert_eq!(
        initialize_vault(1, 2, 3, 4, 5, 20_001, 24_000),
        Err(ErrorCode::InvalidLeverage)
    );
}

#[test]
fn initialize_rejects_low_health_floor() {
    assert_eq!(
        initialize_vault(1, 2, 3, 4, 5, 15_000, 9_999),
        Err(ErrorCode::InvalidHealthFactor)
    );
}

#[test]
fn first_deposit_mints_one_to_one() {
    let mut vault = fresh_vault();
    let mut position = fresh_position();
    let shares = deposit(&mut vault, &mut position, 42, 1_000, 777).unwrap();
    assert_eq!(shares, 1_000);
    assert!(shares > 0);
    assert_eq!(vault.total_shares, 1_000);
    assert_eq!(position.shares, 1_000);
    assert_eq!(position.owner, 42);
    assert_eq!(position.deposited_at, 777);
}

#[test]
fn second_deposit_keeps_owner_stamp() {
    let mut vault = fresh_vault();
    let mut position = fresh_position();
    deposit(&mut vault, &mut position, 42, 1_000, 777).unwrap();
    // the keeper puts the cash to work, giving the vault positive equity
    vault.total_supplied = 1_000;
    let shares = deposit(&mut vault, &mut position, 42, 500, 999).unwrap();
    assert_eq!(shares, 500);
    assert_eq!(position.owner, 42);
    assert_eq!(position.deposited_at, 777);
}

#[test]
fn proportional_deposit_uses_floored_formula() {
    let mut vault = fresh_vault();
    vault.total_shares = 1_000;
    vault.total_supplied = 2_000;
    vault.total_borrowed = 0;
    let mut position = UserPosition { owner: 9, shares: 1_000, deposited_at: 5 };
    // 500 * 1000 / 2000 = 250
    let shares = deposit(&mut vault, &mut position, 9, 500, 6).unwrap();
    assert_eq!(shares, 250);
    assert_eq!(vault.total_shares, 1_250);
    assert_eq!(position.shares, 1_250);
}

#[test]
fn deposit_against_zero_equity_overflows() {
    let mut vault = fresh_vault();
    vault.total_shares = 1_000;
    vault.total_supplied = 500;
    vault.total_borrowed = 500;
    let mut position = UserPosition { owner: 9, shares: 1_000, deposited_at: 5 };
    let before_vault = vault;
    let before_position = position;
    assert_eq!(
        deposit(&mut vault, &mut position, 9, 100, 6),
        Err(ErrorCode::MathOverflow)
    );
    assert_eq!(vault, before_vault);
    assert_eq!(position, before_position);
}

#[test]
fn deposit_quotient_beyond_u64_overflows() {
    let mut vault = fresh_vault();
    vault.total_shares = u64::MAX;
    vault.total_supplied = 1;
    vault.total_borrowed = 0;
    let mut position = UserPosition { owner: 9, shares: 2, deposited_at: 5 };
    assert_eq!(
        deposit(&mut vault, &mut position, 9, 2, 6),
        Err(ErrorCode::MathOverflow)
    );
    assert_eq!(vault.total_shares, u64::MAX);
}

#[test]
fn round_trip_returns_no_more_than_deposited() {
    let mut vault = fresh_vault();
    vault.total_shares = 1_000;
    vault.total_supplied = 2_000;
    vault.total_borrowed = 500;
    let mut position = UserPosition { owner: 9, shares: 1_000, deposited_at: 5 };
    // equity 1500: 777 * 1000 / 1500 = 518 shares
    let shares = deposit(&mut vault, &mut position, 9, 777, 6).unwrap();
    assert_eq!(shares, 518);
    // 518 * 1500 / 1518 = 511
    let returned = withdraw(&mut vault, &mut position, shares, u64::MAX).unwrap();
    assert_eq!(returned, 511);
    assert!(returned <= 777);
}

#[test]
fn withdraw_proportional_amount() {
    let mut vault = fresh_vault();
    vault.total_shares = 1_000;
    vault.total_supplied = 3_000;
    vault.total_borrowed = 1_000;
    let mut position = UserPosition { owner: 9, shares: 400, deposited_at: 5 };
    // 400 * 2000 / 1000 = 800
    let returned = withdraw(&mut vault, &mut position, 400, 10_000).unwrap();
    assert_eq!(returned, 800);
    assert_eq!(vault.total_shares, 600);
    assert_eq!(position.shares, 0);
    // the lending totals are untouched by a withdrawal
    assert_eq!(vault.total_supplied, 3_000);
    assert_eq!(vault.total_borrowed, 1_000);
}

#[test]
fn withdraw_more_than_owned_is_rejected() {
    let mut vault = fresh_vault();
    vault.total_shares = 1_000;
    vault.total_supplied = 1_000;
    let mut position = UserPosition { owner: 9, shares: 400, deposited_at: 5 };
    let before_vault = vault;
    assert_eq!(
        withdraw(&mut vault, &mut position, 401, u64::MAX),
        Err(ErrorCode::InsufficientEquity)
    );
    assert_eq!(vault, before_vault);
    assert_eq!(position.shares, 400);
}

#[test]
fn withdraw_beyond_liquid_balance_is_rejected() {
    let mut vault = fresh_vault();
    vault.total_shares = 1_000;
    vault.total_supplied = 2_000;
    let mut position = UserPosition { owner: 9, shares: 500, deposited_at: 5 };
    // amount owed: 500 * 2000 / 1000 = 1000, but only 999 is liquid
    assert_eq!(
        withdraw(&mut vault, &mut position, 500, 999),
        Err(ErrorCode::InsufficientEquity)
    );
    assert_eq!(vault.total_shares, 1_000);
    assert_eq!(position.shares, 500);
}

#[test]
fn withdraw_from_empty_share_supply_overflows() {
    let mut vault = fresh_vault();
    let mut position = fresh_position();
    assert_eq!(
        withdraw(&mut vault, &mut position, 0, u64::MAX),
        Err(ErrorCode::MathOverflow)
    );
}

#[test]
fn equity_is_supplied_minus_borrowed() {
    let mut vault = fresh_vault();
    vault.total_supplied = 2_500;
    vault.total_borrowed = 900;
    assert_eq!(vault.equity(), 1_600);
}

#[test]
fn equity_saturates_at_zero() {
    let mut vault = fresh_vault();
    vault.total_supplied = 100;
    vault.total_borrowed = 250;
    assert_eq!(vault.equity(), 0);
    vault.total_supplied = 0;
    vault.total_borrowed = u64::MAX;
    assert_eq!(vault.equity(), 0);
}

#[test]
fn leverage_is_supplied_over_equity() {
    let mut vault = fresh_vault();
    vault.total_supplied = 15_000;
    vault.total_borrowed = 5_000;
    // 15000 * 10000 / 10000 = 15000 bps = 1.5x
    assert_eq!(vault.leverage_bps(), 15_000);
}

#[test]
fn leverage_is_zero_without_equity() {
    let mut vault = fresh_vault();
    vault.total_supplied = 100;
    vault.total_borrowed = 100;
    assert_eq!(vault.leverage_bps(), 0);
}

#[test]
fn leverage_saturates_instead_of_truncating() {
    let mut vault = fresh_vault();
    vault.total_supplied = u64::MAX;
    vault.total_borrowed = u64::MAX - 1;
    assert_eq!(vault.leverage_bps(), u16::MAX);
}
