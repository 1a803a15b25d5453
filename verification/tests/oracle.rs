//! Oracle parsing, normalization, staleness, fusion and quality gating,
//! exercised against real Pyth account bytes and raw Switchboard layouts.

use aegis_vault::errors::ErrorCode;
use aegis_vault::oracles::fetch_oracle_data;
use aegis_vault::oracles::fuse_oracle_data;
use aegis_vault::oracles::pyth::get_pyth_confidence;
use aegis_vault::oracles::pyth::get_pyth_price;
use aegis_vault::oracles::pyth::is_pyth_stale;
use aegis_vault::oracles::pyth::normalize_pyth_price;
use aegis_vault::oracles::pyth::reading_is_stale;
use aegis_vault::oracles::switchboard::get_switchboard_price;
use aegis_vault::oracles::switchboard::get_switchboard_std_dev;
use aegis_vault::oracles::switchboard::has_sufficient_responses;
use aegis_vault::oracles::switchboard::is_switchboard_stale;
use aegis_vault::oracles::switchboard::normalize_decimal_mantissa;
use aegis_vault::oracles::validate_oracle_quality;
use pyth_sdk_solana::state::AccountType;
use pyth_sdk_solana::state::PriceStatus;
use pyth_sdk_solana::state::SolanaPriceAccount;
use pyth_sdk_solana::state::MAGIC;
use pyth_sdk_solana::state::VERSION_2;

fn pyth_account_bytes(price: i64, conf: u64, expo: i32, timestamp: i64, trading: bool) -> Vec<u8> {
    let mut acct = SolanaPriceAccount::default();
    acct.magic = MAGIC;
    acct.ver = VERSION_2;
    acct.atype = AccountType::Price as u32;
    acct.expo = expo;
    acct.timestamp = timestamp;
    acct.agg.price = price;
    acct.agg.conf = conf;
    acct.agg.status = if trading { PriceStatus::Trading } else { PriceStatus::Halted };
    bytemuck::bytes_of(&acct).to_vec()
}

fn switchboard_account_bytes(
    mantissa: i128,
    scale: u32,
    round_open_slot: u64,
    num_success: u32,
    std_dev_mantissa: i128,
) -> Vec<u8> {
    let mut data = vec![0u8; 512];
    let base = 8 + 312;
    data[base..base + 4].copy_from_slice(&num_success.to_le_bytes());
    data[base + 16..base + 24].copy_from_slice(&round_open_slot.to_le_bytes());
    data[base + 32..base + 48].copy_from_slice(&mantissa.to_le_bytes());
    data[base + 48..base + 52].copy_from_slice(&scale.to_le_bytes());
    data[base + 52..base + 68].copy_from_slice(&std_dev_mantissa.to_le_bytes());
    data
}

#[test]
fn pyth_price_normalizes_to_six_decimals() {
    // 1.00000000 at exponent -8 is 1.000000 at six decimals
    let data = pyth_account_bytes(100_000_000, 5, -8, 1_700_000_000, true);
    assert_eq!(get_pyth_price(&data), Ok(1_000_000));
    // 0.99900000 -> 0.999000
    let data = pyth_account_bytes(99_900_000, 5, -8, 1_700_000_000, true);
    assert_eq!(get_pyth_price(&data), Ok(999_000));
}

#[test]
fn pyth_price_rejects_non_trading_status() {
    let data = pyth_account_bytes(100_000_000, 5, -8, 1_700_000_000, false);
    assert_eq!(get_pyth_price(&data), Err(ErrorCode::PythPriceUnavailable));
}

#[test]
fn pyth_price_rejects_invalid_account() {
    let mut data = pyth_account_bytes(100_000_000, 5, -8, 1_700_000_000, true);
    data[0] = data[0].wrapping_add(1);  // corrupt the magic number
    assert_eq!(get_pyth_price(&data), Err(ErrorCode::PythPriceUnavailable));
    assert_eq!(get_pyth_price(&vec![]), Err(ErrorCode::PythPriceUnavailable));
    // an unsupported version word
    let mut data = pyth_account_bytes(100_000_000, 5, -8, 1_700_000_000, true);
    data[4] = 9;
    assert_eq!(get_pyth_price(&data), Err(ErrorCode::PythPriceUnavailable));
    // a non-price account type
    let mut data = pyth_account_bytes(100_000_000, 5, -8, 1_700_000_000, true);
    data[8] = 2;
    assert_eq!(get_pyth_price(&data), Err(ErrorCode::PythPriceUnavailable));
    // a buffer one byte short of a whole price account
    let mut data = pyth_account_bytes(100_000_000, 5, -8, 1_700_000_000, true);
    data.pop();
    assert_eq!(get_pyth_price(&data), Err(ErrorCode::PythPriceUnavailable));
}

#[test]
fn pyth_price_treats_out_of_range_status_as_unreadable() {
    // byte 224 is the aggregate status; values past the last variant mark
    // a corrupted or hostile account and must never be trusted
    let mut data = pyth_account_bytes(100_000_000, 5, -8, 1_700_000_000, true);
    data[224] = 7;
    assert_eq!(get_pyth_price(&data), Err(ErrorCode::PythPriceUnavailable));
    data[224] = 255;
    assert_eq!(get_pyth_price(&data), Err(ErrorCode::PythPriceUnavailable));
}

#[test]
fn pyth_price_rejects_non_positive_price() {
    let data = pyth_account_bytes(0, 5, -8, 1_700_000_000, true);
    assert_eq!(get_pyth_price(&data), Err(ErrorCode::PythPriceUnavailable));
    let data = pyth_account_bytes(-42, 5, -8, 1_700_000_000, true);
    assert_eq!(get_pyth_price(&data), Err(ErrorCode::PythPriceUnavailable));
}

#[test]
fn pyth_normalization_handles_exponent_signs() {
    assert_eq!(normalize_pyth_price(5, 0), Ok(5_000_000));
    assert_eq!(normalize_pyth_price(5, 1), Ok(50_000_000));
    assert_eq!(normalize_pyth_price(123_456, -2), Ok(1_234_560_000));
    assert_eq!(normalize_pyth_price(1_000_000, -6), Ok(1_000_000));
}

#[test]
fn pyth_normalization_fails_closed() {
    // 10^13 * 10^6 already exceeds the i64 range
    assert_eq!(normalize_pyth_price(1, 13), Err(ErrorCode::MathOverflow));
    // a divisor beyond 10^38 cannot be represented
    assert_eq!(normalize_pyth_price(1, -39), Err(ErrorCode::MathOverflow));
    // a price that floors to zero is unavailable, not zero
    assert_eq!(normalize_pyth_price(1, -8), Err(ErrorCode::PythPriceUnavailable));
}

#[test]
fn pyth_staleness_converts_seconds_to_slots() {
    let data = pyth_account_bytes(100_000_000, 5, -8, 1_000, true);
    // 61 seconds -> 152 slots > 150
    assert_eq!(is_pyth_stale(&data, 150, 1_061), Ok(true));
    // 60 seconds -> 150 slots, not beyond the threshold
    assert_eq!(is_pyth_stale(&data, 150, 1_060), Ok(false));
    // a publish time in the future counts as fresh
    assert_eq!(is_pyth_stale(&data, 150, 900), Ok(false));
    assert!(reading_is_stale(1_000, 150, 1_061));
    assert!(!reading_is_stale(1_000, 150, 1_060));
}

#[test]
fn pyth_confidence_is_reported_raw() {
    let data = pyth_account_bytes(100_000_000, 777, -8, 1_700_000_000, true);
    assert_eq!(get_pyth_confidence(&data), Ok(777));
}

#[test]
fn switchboard_price_normalizes_scales() {
    // 0.9990 at scale 8: 99_900_000 * 10^-8 -> 999_000 at six decimals
    let data = switchboard_account_bytes(99_900_000, 8, 50, 3, 0);
    assert_eq!(get_switchboard_price(&data), Ok(999_000));
    // scale 6 passes through
    let data = switchboard_account_bytes(1_001_500, 6, 50, 3, 0);
    assert_eq!(get_switchboard_price(&data), Ok(1_001_500));
    // scale 4 multiplies up
    let data = switchboard_account_bytes(9_990, 4, 50, 3, 0);
    assert_eq!(get_switchboard_price(&data), Ok(999_000));
}

#[test]
fn switchboard_price_rejects_bad_input() {
    let data = switchboard_account_bytes(0, 6, 50, 3, 0);
    assert_eq!(get_switchboard_price(&data), Err(ErrorCode::SwitchboardPriceUnavailable));
    let data = switchboard_account_bytes(-1_000_000, 6, 50, 3, 0);
    assert_eq!(get_switchboard_price(&data), Err(ErrorCode::SwitchboardPriceUnavailable));
    // a buffer too short for the latest round
    assert_eq!(
        get_switchboard_price(&vec![0u8; 100]),
        Err(ErrorCode::SwitchboardPriceUnavailable)
    );
}

#[test]
fn switchboard_price_fails_closed_on_extreme_scales() {
    // scale - 6 > 38: the divisor cannot be represented
    let data = switchboard_account_bytes(1, 45, 50, 3, 0);
    assert_eq!(get_switchboard_price(&data), Err(ErrorCode::MathOverflow));
    // the rescaled value exceeds i64
    let data = switchboard_account_bytes(i64::MAX as i128, 0, 50, 3, 0);
    assert_eq!(get_switchboard_price(&data), Err(ErrorCode::MathOverflow));
}

#[test]
fn decimal_normalization_floors_and_detects_zero() {
    assert_eq!(normalize_decimal_mantissa(123_456_789, 8), Ok(1_234_567));
    assert_eq!(normalize_decimal_mantissa(9, 8), Err(ErrorCode::SwitchboardPriceUnavailable));
}

#[test]
fn switchboard_staleness_uses_round_open_slot() {
    let data = switchboard_account_bytes(1_000_000, 6, 100, 3, 0);
    assert_eq!(is_switchboard_stale(&data, 150, 300), Ok(true));
    assert_eq!(is_switchboard_stale(&data, 150, 250), Ok(false));
    // a round opened in the future counts as fresh
    assert_eq!(is_switchboard_stale(&data, 150, 50), Ok(false));
}

#[test]
fn switchboard_std_dev_reads_signed_mantissa() {
    let data = switchboard_account_bytes(1_000_000, 6, 50, 3, 42);
    assert_eq!(get_switchboard_std_dev(&data), Ok(42));
    // a negative mantissa round-trips through the two's-complement reader
    let data = switchboard_account_bytes(1_000_000, 6, 50, 3, -5);
    assert_eq!(get_switchboard_std_dev(&data), Ok(-5));
}

#[test]
fn switchboard_response_count_gate() {
    let data = switchboard_account_bytes(1_000_000, 6, 50, 3, 0);
    assert_eq!(has_sufficient_responses(&data, 3), Ok(true));
    let data = switchboard_account_bytes(1_000_000, 6, 50, 2, 0);
    assert_eq!(has_sufficient_responses(&data, 3), Ok(false));
}

#[test]
fn fusion_flags_conflicting_feeds() {
    // 0.9990 and 1.0015: deviation 24 bps of the 1.000250 average
    let od = fuse_oracle_data(999_000, 1_001_500, false, false, 15);
    assert!(od.has_conflict);
    assert_eq!(od.avg_price, 1_000_250);
    assert_eq!(od.peg_deviation_bps, 2);
    let od = fuse_oracle_data(999_000, 1_001_500, false, false, 30);
    assert!(!od.has_conflict);
}

#[test]
fn fusion_is_stale_when_either_feed_is() {
    let od = fuse_oracle_data(1_000_000, 1_000_000, true, false, 15);
    assert!(od.is_stale);
    let od = fuse_oracle_data(1_000_000, 1_000_000, false, true, 15);
    assert!(od.is_stale);
    let od = fuse_oracle_data(1_000_000, 1_000_000, false, false, 15);
    assert!(!od.is_stale);
}

#[test]
fn fetch_oracle_data_end_to_end_conflict() {
    let now = 1_700_000_000;
    let slot = 5_000;
    let pyth = pyth_account_bytes(99_900_000, 5, -8, now, true);
    let switchboard = switchboard_account_bytes(1_001_500, 6, slot, 3, 0);
    let od = fetch_oracle_data(&pyth, &switchboard, 150, 15, now, slot).unwrap();
    assert_eq!(od.pyth_price, 999_000);
    assert_eq!(od.switchboard_price, 1_001_500);
    assert_eq!(od.avg_price, 1_000_250);
    assert!(od.has_conflict);
    assert!(!od.is_stale);
    assert_eq!(od.peg_deviation_bps, 2);
    let od = fetch_oracle_data(&pyth, &switchboard, 150, 30, now, slot).unwrap();
    assert!(!od.has_conflict);
}

#[test]
fn fetch_oracle_data_propagates_feed_errors() {
    let now = 1_700_000_000;
    let switchboard = switchboard_account_bytes(1_000_000, 6, 5_000, 3, 0);
    assert_eq!(
        fetch_oracle_data(&vec![], &switchboard, 150, 15, now, 5_000),
        Err(ErrorCode::PythPriceUnavailable)
    );
    let pyth = pyth_account_bytes(100_000_000, 5, -8, now, true);
    assert_eq!(
        fetch_oracle_data(&pyth, &vec![], 150, 15, now, 5_000),
        Err(ErrorCode::SwitchboardPriceUnavailable)
    );
}

#[test]
fn quality_gate_checks_confidence_and_responses() {
    let now = 1_700_000_000;
    let switchboard = switchboard_account_bytes(1_000_000, 6, 5_000, 3, 0);
    // confidence and price share the feed's exponent, so the ratio is
    // taken at that scale: 1_009_999 / 100_000_000 floors to 100 bps
    let pyth = pyth_account_bytes(100_000_000, 1_009_999, -8, now, true);
    assert_eq!(validate_oracle_quality(&pyth, &switchboard), Ok(true));
    // one more raw unit crosses the 1% line
    let pyth = pyth_account_bytes(100_000_000, 1_010_000, -8, now, true);
    assert_eq!(validate_oracle_quality(&pyth, &switchboard), Ok(false));
    // too few successful responses fail
    let pyth = pyth_account_bytes(100_000_000, 10, -8, now, true);
    let sparse = switchboard_account_bytes(1_000_000, 6, 5_000, 2, 0);
    assert_eq!(validate_oracle_quality(&pyth, &sparse), Ok(false));
    // an unreadable feed is an error, not a pass
    assert_eq!(
        validate_oracle_quality(&vec![], &switchboard),
        Err(ErrorCode::PythPriceUnavailable)
    );
}
