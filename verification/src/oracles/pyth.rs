//! Reader for Pyth price accounts.
//!
//! A price account is a fixed `repr(C)` layout of 3312 bytes (a header and
//! 32 publisher slots); the few fields the vault needs sit at fixed
//! offsets, so the account is read directly from the raw bytes, like the
//! Switchboard account.  Byte-level parsing keeps the reader total: a
//! buffer that fails any header check — or carries an out-of-range status
//! byte, the mark of a corrupted or hostile account — is reported as
//! unreadable rather than trusted.
//!
//! Layout offsets of the fields used: the magic number, version and
//! account type are the first three `u32` words; the price exponent (an
//! `i32`) is at offset 20; the aggregate's unix timestamp (an `i64`) at
//! 96; and within the aggregate, the price (`i64`) at 208, the confidence
//! (`u64`) at 216 and the one-byte status at 224.  A status byte of 1
//! marks a trading aggregate; only those yield a reading.

use vstd::prelude::*;

use crate::errors::ErrorCode;
use crate::oracles::switchboard::lemma_pow10_monotone;
use crate::oracles::switchboard::pow10;
use crate::oracles::switchboard::pow10_i128;
use crate::oracles::switchboard::read_i32_le;
use crate::oracles::switchboard::read_i64_le;
use crate::oracles::switchboard::read_u32_le;
use crate::oracles::switchboard::read_u64_le;
use crate::oracles::switchboard::spec_i32_le;
use crate::oracles::switchboard::spec_i64_le;
use crate::oracles::switchboard::spec_u32_le;
use crate::oracles::switchboard::spec_u64_le;

verus! {

/// Total size of a price account: the header plus 32 publisher slots.
pub const PYTH_PRICE_ACCOUNT_SIZE: usize = 3312;

/// The magic number opening every Pyth account.
pub const PYTH_MAGIC: u32 = 0xa1b2_c3d4;

/// The supported program version.
pub const PYTH_VERSION: u32 = 2;

/// The account-type word of a price account.
pub const PYTH_ACCOUNT_TYPE_PRICE: u32 = 3;

/// The status byte of a trading aggregate.
pub const PYTH_STATUS_TRADING: u8 = 1;

/// Offset of the price exponent.
pub const PYTH_EXPO_OFFSET: usize = 20;

/// Offset of the aggregate's unix timestamp.
pub const PYTH_TIMESTAMP_OFFSET: usize = 96;

/// Offset of the aggregate price.
pub const PYTH_AGG_PRICE_OFFSET: usize = 208;

/// Offset of the aggregate confidence interval.
pub const PYTH_AGG_CONF_OFFSET: usize = 216;

/// Offset of the aggregate status byte.
pub const PYTH_AGG_STATUS_OFFSET: usize = 224;

/// A trading reading of a Pyth price account: the aggregate price and its
/// confidence interval, the account's decimal exponent, and the aggregate's
/// publish timestamp.
#[derive(Clone, Copy, Debug, PartialEq, Eq, Structural)]
pub struct PythReading {
    /// Aggregate price, scaled by ten to the `expo`.
    pub price: i64,
    /// Confidence interval around the price, in the same scale.
    pub conf: u64,
    /// Decimal exponent of `price` and `conf`.
    pub expo: i32,
    /// Unix timestamp of the aggregate.
    pub publish_time: i64,
}

/// The reading that a Pyth price account parses to: `None` unless the
/// bytes are large enough for a price account, open with the magic number,
/// the supported version and the price account type, and carry a trading
/// aggregate.
pub open spec fn pyth_reading_of(data: Seq<u8>) -> Option<PythReading> {
    if data.len() < PYTH_PRICE_ACCOUNT_SIZE {
        None
    } else if spec_u32_le(data, 0) != PYTH_MAGIC {
        None
    } else if spec_u32_le(data, 4) != PYTH_VERSION {
        None
    } else if spec_u32_le(data, 8) != PYTH_ACCOUNT_TYPE_PRICE {
        None
    } else if data[PYTH_AGG_STATUS_OFFSET as int] != PYTH_STATUS_TRADING {
        None
    } else {
        Some(
            PythReading {
                price: spec_i64_le(data, PYTH_AGG_PRICE_OFFSET as int) as i64,
                conf: spec_u64_le(data, PYTH_AGG_CONF_OFFSET as int) as u64,
                expo: spec_i32_le(data, PYTH_EXPO_OFFSET as int) as i32,
                publish_time: spec_i64_le(data, PYTH_TIMESTAMP_OFFSET as int) as i64,
            },
        )
    }
}

/// Parse a Pyth price account from its raw bytes: the header checks of the
/// account format, then the aggregate fields at their fixed offsets.
pub fn load_pyth_reading(data: &Vec<u8>) -> (r: Option<PythReading>)
    ensures
        r == pyth_reading_of(data@),
{
    if data.len() < PYTH_PRICE_ACCOUNT_SIZE {
        return None;
    }
    let magic = match read_u32_le(data, 0) {
        Some(v) => v,
        None => {
            return None;
        },
    };
    if magic != PYTH_MAGIC {
        return None;
    }
    let version = match read_u32_le(data, 4) {
        Some(v) => v,
        None => {
            return None;
        },
    };
    if version != PYTH_VERSION {
        return None;
    }
    let account_type = match read_u32_le(data, 8) {
        Some(v) => v,
        None => {
            return None;
        },
    };
    if account_type != PYTH_ACCOUNT_TYPE_PRICE {
        return None;
    }
    if data[PYTH_AGG_STATUS_OFFSET] != PYTH_STATUS_TRADING {
        return None;
    }
    let price = match read_i64_le(data, PYTH_AGG_PRICE_OFFSET) {
        Some(v) => v,
        None => {
            return None;
        },
    };
    let conf = match read_u64_le(data, PYTH_AGG_CONF_OFFSET) {
        Some(v) => v,
        None => {
            return None;
        },
    };
    let expo = match read_i32_le(data, PYTH_EXPO_OFFSET) {
        Some(v) => v,
        None => {
            return None;
        },
    };
    let publish_time = match read_i64_le(data, PYTH_TIMESTAMP_OFFSET) {
        Some(v) => v,
        None => {
            return None;
        },
    };
    Some(PythReading { price, conf, expo, publish_time })
}

/// A positive Pyth price `price × 10^expo` rescaled to six fractional
/// digits, floored; a value that cannot be represented in an `i64` fails
/// with `MathOverflow`, and one that floors to zero is unavailable.
pub open spec fn spec_pyth_normalized(price: int, expo: int) -> Result<i64, ErrorCode> {
    if expo >= 0 {
        let m = price * pow10(expo as nat) * 1_000_000;
        if m > i64::MAX {
            Err(ErrorCode::MathOverflow)
        } else {
            Ok(m as i64)
        }
    } else if -expo > 38 {
        Err(ErrorCode::MathOverflow)
    } else {
        let q = (price * 1_000_000) / pow10((-expo) as nat);
        if q == 0 {
            Err(ErrorCode::PythPriceUnavailable)
        } else if q > i64::MAX {
            Err(ErrorCode::MathOverflow)
        } else {
            Ok(q as i64)
        }
    }
}

/// Rescale a positive Pyth price with exponent `expo` to six fractional
/// digits using widened integer arithmetic only.
pub fn normalize_pyth_price(price: i64, expo: i32) -> (r: Result<i64, ErrorCode>)
    requires
        price > 0,
    ensures
        r == spec_pyth_normalized(price as int, expo as int),
{
    if expo >= 0 {
        if expo >= 13 {
            proof {
                lemma_pow10_monotone(13, expo as nat);
                reveal_with_fuel(pow10, 14);
                assert(price * pow10(expo as nat) * 1_000_000 > i64::MAX) by (nonlinear_arith)
                    requires
                        price >= 1,
                        pow10(expo as nat) >= 10_000_000_000_000int,
                ;
            }
            return Err(ErrorCode::MathOverflow);
        }
        let p10 = pow10_i128(expo as u32);
        proof {
            lemma_pow10_monotone(expo as nat, 12);
            reveal_with_fuel(pow10, 13);
            assert(price * p10 <= 9_223_372_036_854_775_807i128 * 1_000_000_000_000i128
                && price * p10 >= price) by (nonlinear_arith)
                requires
                    0 < price <= 9_223_372_036_854_775_807i128,
                    1 <= p10 <= 1_000_000_000_000i128,
            ;
        }
        let m = (price as i128) * p10 * 1_000_000;
        if m > i64::MAX as i128 {
            Err(ErrorCode::MathOverflow)
        } else {
            Ok(m as i64)
        }
    } else {
        let k = -(expo as i64);
        if k > 38 {
            return Err(ErrorCode::MathOverflow);
        }
        let d = pow10_i128(k as u32);
        proof {
            lemma_pow10_monotone(0, k as nat);
        }
        let wide = (price as i128) * 1_000_000;
        let q = (wide as u128) / (d as u128);
        if q == 0 {
            Err(ErrorCode::PythPriceUnavailable)
        } else if q > i64::MAX as u128 {
            Err(ErrorCode::MathOverflow)
        } else {
            Ok(q as i64)
        }
    }
}

/// The six-decimal price of a Pyth price account: unavailable unless the
/// account parses to a trading aggregate with a positive price that still
/// is positive after rescaling.
pub open spec fn spec_pyth_price(data: Seq<u8>) -> Result<i64, ErrorCode> {
    match pyth_reading_of(data) {
        None => Err(ErrorCode::PythPriceUnavailable),
        Some(rd) => if rd.price <= 0 {
            Err(ErrorCode::PythPriceUnavailable)
        } else {
            spec_pyth_normalized(rd.price as int, rd.expo as int)
        },
    }
}

/// Fetch the current price from a Pyth price account, normalized to six
/// decimal places.
pub fn get_pyth_price(data: &Vec<u8>) -> (r: Result<i64, ErrorCode>)
    ensures
        r == spec_pyth_price(data@),
{
    let reading = match load_pyth_reading(data) {
        Some(rd) => rd,
        None => {
            return Err(ErrorCode::PythPriceUnavailable);
        },
    };
    if reading.price <= 0 {
        return Err(ErrorCode::PythPriceUnavailable);
    }
    normalize_pyth_price(reading.price, reading.expo)
}

/// Whether a reading published at `publish_time` counts as stale at
/// wall-clock `now_ts`: the elapsed seconds, converted to slots at 400 ms
/// per slot, exceed `max_age_slots`.  A reading from the future is fresh.
pub open spec fn spec_reading_stale(publish_time: int, max_age_slots: u64, now_ts: int) -> bool {
    let diff = if now_ts >= publish_time {
        now_ts - publish_time
    } else {
        0
    };
    diff * 10 / 4 > max_age_slots
}

/// Decide staleness of a reading from its publish timestamp, the allowed
/// age in slots, and the current wall-clock timestamp.
pub fn reading_is_stale(publish_time: i64, max_age_slots: u64, now_ts: i64) -> (r: bool)
    ensures
        r == spec_reading_stale(publish_time as int, max_age_slots, now_ts as int),
{
    let diff: i128 = if now_ts >= publish_time {
        now_ts as i128 - publish_time as i128
    } else {
        0
    };
    diff * 10 / 4 > max_age_slots as i128
}

/// Staleness of a Pyth price account at wall-clock `now_ts`.
pub open spec fn spec_pyth_stale(data: Seq<u8>, max_age_slots: u64, now_ts: int) -> Result<
    bool,
    ErrorCode,
> {
    match pyth_reading_of(data) {
        None => Err(ErrorCode::PythPriceUnavailable),
        Some(rd) => Ok(spec_reading_stale(rd.publish_time as int, max_age_slots, now_ts)),
    }
}

/// Check if a Pyth price account is stale at wall-clock `now_ts`.
pub fn is_pyth_stale(data: &Vec<u8>, max_age_slots: u64, now_ts: i64) -> (r: Result<bool, ErrorCode>)
    ensures
        r == spec_pyth_stale(data@, max_age_slots, now_ts as int),
{
    match load_pyth_reading(data) {
        Some(rd) => Ok(reading_is_stale(rd.publish_time, max_age_slots, now_ts)),
        None => Err(ErrorCode::PythPriceUnavailable),
    }
}

/// The confidence interval of a Pyth price account's aggregate.
pub open spec fn spec_pyth_confidence(data: Seq<u8>) -> Result<u64, ErrorCode> {
    match pyth_reading_of(data) {
        None => Err(ErrorCode::PythPriceUnavailable),
        Some(rd) => Ok(rd.conf),
    }
}

/// Get the Pyth price confidence interval.
pub fn get_pyth_confidence(data: &Vec<u8>) -> (r: Result<u64, ErrorCode>)
    ensures
        r == spec_pyth_confidence(data@),
{
    match load_pyth_reading(data) {
        Some(rd) => Ok(rd.conf),
        None => Err(ErrorCode::PythPriceUnavailable),
    }
}

} // verus!
