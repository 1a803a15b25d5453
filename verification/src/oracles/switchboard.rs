//! Reader for Switchboard V2 aggregator accounts, and the little-endian
//! primitives shared by both oracle account readers.
//!
//! The full `AggregatorAccountData` layout is large; only the latest
//! confirmed round is read, directly from the raw account bytes.
//!
//! Layout offsets (after the 8-byte discriminator) up to the fields used:
//! the latest confirmed round starts at offset 312; within the round,
//! `num_success` is at +0, `round_open_slot` at +16, the result decimal's
//! mantissa (an `i128`) at +32 and its scale (a `u32`) at +48, and the
//! standard deviation's mantissa at +52.

use vstd::prelude::*;

use crate::errors::ErrorCode;

verus! {

/// Bytes of the account discriminator preceding the aggregator data.
pub const DISCRIMINATOR_LEN: usize = 8;

/// Offset of the latest confirmed `AggregatorRound` within the aggregator data.
pub const LATEST_ROUND_OFFSET: usize = 312;

/// Offset of `num_success` within an `AggregatorRound`.
pub const ROUND_NUM_SUCCESS_OFFSET: usize = 0;

/// Offset of `round_open_slot` within an `AggregatorRound`.
pub const ROUND_OPEN_SLOT_OFFSET: usize = 16;

/// Offset of the result mantissa within an `AggregatorRound`.
pub const ROUND_RESULT_MANTISSA_OFFSET: usize = 32;

/// Offset of the result scale within an `AggregatorRound`.
pub const ROUND_RESULT_SCALE_OFFSET: usize = 48;

/// Offset of the standard-deviation mantissa within an `AggregatorRound`.
pub const ROUND_STD_DEV_MANTISSA_OFFSET: usize = 52;

/// The unsigned little-endian value of `n` bytes of `s` starting at `off`.
pub open spec fn spec_le_bytes(s: Seq<u8>, off: int, n: int) -> int
    decreases n,
{
    if n <= 0 {
        0
    } else {
        s[off] + 256 * spec_le_bytes(s, off + 1, n - 1)
    }
}

/// The little-endian `u32` at `off`.
pub open spec fn spec_u32_le(s: Seq<u8>, off: int) -> int {
    spec_le_bytes(s, off, 4)
}

/// The little-endian `u64` at `off`.
pub open spec fn spec_u64_le(s: Seq<u8>, off: int) -> int {
    spec_le_bytes(s, off, 8)
}

/// The little-endian two's-complement `i32` at `off`.
pub open spec fn spec_i32_le(s: Seq<u8>, off: int) -> int {
    let v = spec_le_bytes(s, off, 4);
    if v < 0x8000_0000 {
        v
    } else {
        v - 0x1_0000_0000
    }
}

/// The little-endian two's-complement `i64` at `off`.
pub open spec fn spec_i64_le(s: Seq<u8>, off: int) -> int {
    let v = spec_le_bytes(s, off, 8);
    if v < 0x8000_0000_0000_0000 {
        v
    } else {
        v - 0x1_0000_0000_0000_0000
    }
}

/// The little-endian two's-complement `i128` at `off`.
pub open spec fn spec_i128_le(s: Seq<u8>, off: int) -> int {
    let v = spec_le_bytes(s, off, 16);
    if v < 0x80000000000000000000000000000000 {
        v
    } else {
        v - 0x100000000000000000000000000000000
    }
}

/// Ten to the `k`.
pub open spec fn pow10(k: nat) -> int
    decreases k,
{
    if k == 0 {
        1
    } else {
        10 * pow10((k - 1) as nat)
    }
}

/// Powers of ten are positive and grow with the exponent.
pub proof fn lemma_pow10_monotone(a: nat, b: nat)
    requires
        a <= b,
    ensures
        1 <= pow10(a) <= pow10(b),
    decreases b,
{
    if b > 0 {
        if a == b {
            lemma_pow10_monotone((a - 1) as nat, (b - 1) as nat);
        } else {
            lemma_pow10_monotone(a, (b - 1) as nat);
        }
    }
}

/// Read the little-endian `u32` at `offset`, if those bytes exist.
pub fn read_u32_le(data: &Vec<u8>, offset: usize) -> (r: Option<u32>)
    ensures
        match r {
            Some(v) => offset + 4 <= data@.len() && v == spec_u32_le(data@, offset as int),
            None => offset + 4 > data@.len(),
        },
{
    if data.len() < 4 || offset > data.len() - 4 {
        return None;
    }
    let b0 = data[offset] as u32;
    let b1 = data[offset + 1] as u32;
    let b2 = data[offset + 2] as u32;
    let b3 = data[offset + 3] as u32;
    proof {
        reveal_with_fuel(spec_le_bytes, 5);
    }
    Some(b0 + b1 * 0x100 + b2 * 0x1_0000 + b3 * 0x100_0000)
}

/// Read the little-endian `u64` at `offset`, if those bytes exist.
pub fn read_u64_le(data: &Vec<u8>, offset: usize) -> (r: Option<u64>)
    ensures
        match r {
            Some(v) => offset + 8 <= data@.len() && v == spec_u64_le(data@, offset as int),
            None => offset + 8 > data@.len(),
        },
{
    if data.len() < 8 || offset > data.len() - 8 {
        return None;
    }
    let b0 = data[offset] as u64;
    let b1 = data[offset + 1] as u64;
    let b2 = data[offset + 2] as u64;
    let b3 = data[offset + 3] as u64;
    let b4 = data[offset + 4] as u64;
    let b5 = data[offset + 5] as u64;
    let b6 = data[offset + 6] as u64;
    let b7 = data[offset + 7] as u64;
    proof {
        reveal_with_fuel(spec_le_bytes, 9);
    }
    Some(
        b0 + b1 * 0x100 + b2 * 0x1_0000 + b3 * 0x100_0000 + b4 * 0x1_0000_0000 + b5
            * 0x100_0000_0000 + b6 * 0x1_0000_0000_0000 + b7 * 0x100_0000_0000_0000,
    )
}

/// Read the little-endian two's-complement `i32` at `offset`, if those
/// bytes exist.
pub fn read_i32_le(data: &Vec<u8>, offset: usize) -> (r: Option<i32>)
    ensures
        match r {
            Some(v) => offset + 4 <= data@.len() && v == spec_i32_le(data@, offset as int),
            None => offset + 4 > data@.len(),
        },
{
    if data.len() < 4 || offset > data.len() - 4 {
        return None;
    }
    let b0 = data[offset] as u32;
    let b1 = data[offset + 1] as u32;
    let b2 = data[offset + 2] as u32;
    let b3 = data[offset + 3];
    let lo: u32 = b0 + b1 * 0x100 + b2 * 0x1_0000;
    proof {
        reveal_with_fuel(spec_le_bytes, 5);
    }
    if b3 < 128 {
        Some((lo + (b3 as u32) * 0x100_0000) as i32)
    } else {
        Some((b3 as i32 - 256) * 0x100_0000i32 + lo as i32)
    }
}

/// Read the little-endian two's-complement `i64` at `offset`, if those
/// bytes exist.
pub fn read_i64_le(data: &Vec<u8>, offset: usize) -> (r: Option<i64>)
    ensures
        match r {
            Some(v) => offset + 8 <= data@.len() && v == spec_i64_le(data@, offset as int),
            None => offset + 8 > data@.len(),
        },
{
    if data.len() < 8 || offset > data.len() - 8 {
        return None;
    }
    let b0 = data[offset] as u64;
    let b1 = data[offset + 1] as u64;
    let b2 = data[offset + 2] as u64;
    let b3 = data[offset + 3] as u64;
    let b4 = data[offset + 4] as u64;
    let b5 = data[offset + 5] as u64;
    let b6 = data[offset + 6] as u64;
    let b7 = data[offset + 7];
    let lo: u64 = b0 + b1 * 0x100 + b2 * 0x1_0000 + b3 * 0x100_0000 + b4 * 0x1_0000_0000 + b5
        * 0x100_0000_0000 + b6 * 0x1_0000_0000_0000;
    proof {
        reveal_with_fuel(spec_le_bytes, 9);
    }
    if b7 < 128 {
        Some((lo + (b7 as u64) * 0x100_0000_0000_0000) as i64)
    } else {
        Some((b7 as i64 - 256) * 0x100_0000_0000_0000i64 + lo as i64)
    }
}

/// Read the little-endian two's-complement `i128` at `offset`, if those
/// bytes exist.
#[verifier::rlimit(60)]
pub fn read_i128_le(data: &Vec<u8>, offset: usize) -> (r: Option<i128>)
    ensures
        match r {
            Some(v) => offset + 16 <= data@.len() && v == spec_i128_le(data@, offset as int),
            None => offset + 16 > data@.len(),
        },
{
    if data.len() < 16 || offset > data.len() - 16 {
        return None;
    }
    let b0 = data[offset] as u128;
    let b1 = data[offset + 1] as u128;
    let b2 = data[offset + 2] as u128;
    let b3 = data[offset + 3] as u128;
    let b4 = data[offset + 4] as u128;
    let b5 = data[offset + 5] as u128;
    let b6 = data[offset + 6] as u128;
    let b7 = data[offset + 7] as u128;
    let b8 = data[offset + 8] as u128;
    let b9 = data[offset + 9] as u128;
    let b10 = data[offset + 10] as u128;
    let b11 = data[offset + 11] as u128;
    let b12 = data[offset + 12] as u128;
    let b13 = data[offset + 13] as u128;
    let b14 = data[offset + 14] as u128;
    let b15 = data[offset + 15];
    let lo: u128 = b0 + b1 * 0x100 + b2 * 0x1_0000 + b3 * 0x100_0000 + b4 * 0x1_0000_0000 + b5
        * 0x100_0000_0000 + b6 * 0x1_0000_0000_0000 + b7 * 0x100_0000_0000_0000 + b8
        * 0x1_0000_0000_0000_0000 + b9 * 0x100_0000_0000_0000_0000 + b10
        * 0x1_0000_0000_0000_0000_0000 + b11 * 0x100_0000_0000_0000_0000_0000 + b12
        * 0x1_0000_0000_0000_0000_0000_0000 + b13 * 0x100_0000_0000_0000_0000_0000_0000 + b14
        * 0x1_0000_0000_0000_0000_0000_0000_0000;
    proof {
        reveal_with_fuel(spec_le_bytes, 17);
    }
    if b15 < 128 {
        Some((lo + (b15 as u128) * 0x1000000000000000000000000000000) as i128)
    } else {
        Some((b15 as i128 - 256) * 0x1000000000000000000000000000000i128 + lo as i128)
    }
}

/// The latest round's price mantissa and scale, normalized to six implied
/// decimals: unreadable bytes or a non-positive result fail with
/// `SwitchboardPriceUnavailable`, and a value that cannot be represented
/// fails with `MathOverflow`.
pub open spec fn spec_switchboard_price(s: Seq<u8>) -> Result<i64, ErrorCode> {
    if s.len() < 368 {
        Err(ErrorCode::SwitchboardPriceUnavailable)
    } else if s.len() < 372 {
        Err(ErrorCode::SwitchboardPriceUnavailable)
    } else {
        let mantissa = spec_i128_le(s, 352);
        let scale = spec_u32_le(s, 368);
        if mantissa <= 0 {
            Err(ErrorCode::SwitchboardPriceUnavailable)
        } else {
            spec_normalize_decimal(mantissa, scale)
        }
    }
}

/// A positive decimal `mantissa × 10^-scale` rescaled to six fractional
/// digits, floored; a power of ten or a product or quotient that cannot be
/// represented fails with `MathOverflow`, and a value that floors to zero
/// is reported as unavailable.
pub open spec fn spec_normalize_decimal(mantissa: int, scale: int) -> Result<i64, ErrorCode> {
    if scale >= 6 {
        if scale - 6 > 38 {
            Err(ErrorCode::MathOverflow)
        } else {
            let q = mantissa / pow10((scale - 6) as nat);
            if q == 0 {
                Err(ErrorCode::SwitchboardPriceUnavailable)
            } else if q > i64::MAX {
                Err(ErrorCode::MathOverflow)
            } else {
                Ok(q as i64)
            }
        }
    } else {
        let m = mantissa * pow10((6 - scale) as nat);
        if m > i64::MAX {
            Err(ErrorCode::MathOverflow)
        } else {
            Ok(m as i64)
        }
    }
}

/// Ten to the `k`, computed for exponents whose power fits an `i128`.
pub fn pow10_i128(k: u32) -> (r: i128)
    requires
        k <= 38,
    ensures
        r == pow10(k as nat),
{
    let mut acc: i128 = 1;
    let mut i: u32 = 0;
    while i < k
        invariant
            i <= k <= 38,
            acc == pow10(i as nat),
        decreases k - i,
    {
        proof {
            lemma_pow10_monotone((i + 1) as nat, 38);
            reveal_with_fuel(pow10, 39);
            assert(pow10(38) == 100_000_000_000_000_000_000_000_000_000_000_000_000int);
        }
        acc = acc * 10;
        i = i + 1;
    }
    acc
}

/// Normalize a positive decimal mantissa with the given scale to six
/// fractional digits using widened integer arithmetic only.
pub fn normalize_decimal_mantissa(mantissa: i128, scale: u32) -> (r: Result<i64, ErrorCode>)
    requires
        mantissa > 0,
    ensures
        r == spec_normalize_decimal(mantissa as int, scale as int),
{
    if scale >= 6 {
        let k = scale - 6;
        if k > 38 {
            return Err(ErrorCode::MathOverflow);
        }
        let d = pow10_i128(k);
        proof {
            lemma_pow10_monotone(0, k as nat);
        }
        let q = (mantissa as u128) / (d as u128);
        if q == 0 {
            Err(ErrorCode::SwitchboardPriceUnavailable)
        } else if q > i64::MAX as u128 {
            Err(ErrorCode::MathOverflow)
        } else {
            Ok(q as i64)
        }
    } else {
        let p = pow10_i128(6 - scale);
        proof {
            lemma_pow10_monotone((6 - scale) as nat, 6);
            reveal_with_fuel(pow10, 7);
            assert(pow10(6) == 1_000_000int);
            assert(mantissa * p >= mantissa) by (nonlinear_arith)
                requires
                    mantissa > 0,
                    1 <= p,
            ;
        }
        if mantissa > i64::MAX as i128 {
            return Err(ErrorCode::MathOverflow);
        }
        proof {
            assert(mantissa * p <= 9_223_372_036_854_775_807i128 * 1_000_000i128)
                by (nonlinear_arith)
                requires
                    0 < mantissa <= 9_223_372_036_854_775_807i128,
                    1 <= p <= 1_000_000i128,
            ;
        }
        let m = mantissa * p;
        if m > i64::MAX as i128 {
            Err(ErrorCode::MathOverflow)
        } else {
            Ok(m as i64)
        }
    }
}

/// Fetch the latest confirmed price from a Switchboard aggregator account,
/// normalized to six decimal places.
pub fn get_switchboard_price(data: &Vec<u8>) -> (r: Result<i64, ErrorCode>)
    ensures
        r == spec_switchboard_price(data@),
{
    let base = DISCRIMINATOR_LEN + LATEST_ROUND_OFFSET;
    let mantissa = match read_i128_le(data, base + ROUND_RESULT_MANTISSA_OFFSET) {
        Some(m) => m,
        None => {
            return Err(ErrorCode::SwitchboardPriceUnavailable);
        },
    };
    let scale = match read_u32_le(data, base + ROUND_RESULT_SCALE_OFFSET) {
        Some(s) => s,
        None => {
            return Err(ErrorCode::SwitchboardPriceUnavailable);
        },
    };
    if mantissa <= 0 {
        return Err(ErrorCode::SwitchboardPriceUnavailable);
    }
    normalize_decimal_mantissa(mantissa, scale)
}

/// Whether the latest confirmed round opened more than `max_age_slots`
/// slots before `current_slot`; a round opened in the future counts as
/// fresh.
pub open spec fn spec_switchboard_stale(s: Seq<u8>, max_age_slots: u64, current_slot: u64) -> Result<
    bool,
    ErrorCode,
> {
    if s.len() < 344 {
        Err(ErrorCode::SwitchboardPriceUnavailable)
    } else {
        let round_open_slot = spec_u64_le(s, 336);
        let slots_since = if current_slot >= round_open_slot {
            current_slot - round_open_slot
        } else {
            0
        };
        Ok(slots_since > max_age_slots)
    }
}

/// Check if a Switchboard price feed is stale, based on `round_open_slot`.
pub fn is_switchboard_stale(data: &Vec<u8>, max_age_slots: u64, current_slot: u64) -> (r: Result<
    bool,
    ErrorCode,
>)
    ensures
        r == spec_switchboard_stale(data@, max_age_slots, current_slot),
{
    let base = DISCRIMINATOR_LEN + LATEST_ROUND_OFFSET;
    let round_open_slot = match read_u64_le(data, base + ROUND_OPEN_SLOT_OFFSET) {
        Some(v) => v,
        None => {
            return Err(ErrorCode::SwitchboardPriceUnavailable);
        },
    };
    let slots_since = if current_slot >= round_open_slot {
        current_slot - round_open_slot
    } else {
        0
    };
    Ok(slots_since > max_age_slots)
}

/// The latest round's standard-deviation mantissa, unscaled.
pub open spec fn spec_switchboard_std_dev(s: Seq<u8>) -> Result<i128, ErrorCode> {
    if s.len() < 388 {
        Err(ErrorCode::SwitchboardPriceUnavailable)
    } else {
        Ok(spec_i128_le(s, 372) as i128)
    }
}

/// Get the Switchboard price standard deviation (mantissa only).
pub fn get_switchboard_std_dev(data: &Vec<u8>) -> (r: Result<i128, ErrorCode>)
    ensures
        r == spec_switchboard_std_dev(data@),
{
    let base = DISCRIMINATOR_LEN + LATEST_ROUND_OFFSET;
    match read_i128_le(data, base + ROUND_STD_DEV_MANTISSA_OFFSET) {
        Some(m) => Ok(m),
        None => Err(ErrorCode::SwitchboardPriceUnavailable),
    }
}

/// Whether the latest round aggregates at least `min_responses` successful
/// oracle responses.
pub open spec fn spec_has_sufficient_responses(s: Seq<u8>, min_responses: u32) -> Result<
    bool,
    ErrorCode,
> {
    if s.len() < 324 {
        Err(ErrorCode::SwitchboardPriceUnavailable)
    } else {
        Ok(spec_u32_le(s, 320) >= min_responses)
    }
}

/// Check if a Switchboard feed has enough successful oracle responses.
pub fn has_sufficient_responses(data: &Vec<u8>, min_responses: u32) -> (r: Result<bool, ErrorCode>)
    ensures
        r == spec_has_sufficient_responses(data@, min_responses),
{
    let base = DISCRIMINATOR_LEN + LATEST_ROUND_OFFSET;
    match read_u32_le(data, base + ROUND_NUM_SUCCESS_OFFSET) {
        Some(n) => Ok(n >= min_responses),
        None => Err(ErrorCode::SwitchboardPriceUnavailable),
    }
}

} // verus!
