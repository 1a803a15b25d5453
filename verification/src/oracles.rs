//! Oracle integration: two independent price feeds, normalized to six
//! implied decimals and fused into a single quality-gated reading.

pub mod pyth;
pub mod switchboard;

use vstd::arithmetic::div_mod::lemma_div_pos_is_pos;
use vstd::prelude::*;

use crate::errors::ErrorCode;
use crate::logic::state_machine::calculate_peg_bps;
use crate::logic::state_machine::spec_peg_bps;
use crate::oracles::pyth::pyth_reading_of;
use crate::oracles::pyth::spec_pyth_normalized;
use crate::oracles::pyth::spec_pyth_price;
use crate::oracles::pyth::spec_pyth_stale;
use crate::oracles::switchboard::lemma_pow10_monotone;
use crate::oracles::switchboard::pow10;
use crate::oracles::switchboard::spec_has_sufficient_responses;
use crate::oracles::switchboard::spec_i128_le;
use crate::oracles::switchboard::spec_normalize_decimal;
use crate::oracles::switchboard::spec_switchboard_price;
use crate::oracles::switchboard::spec_switchboard_stale;
use crate::oracles::switchboard::spec_u32_le;

verus! {

/// Maximum inter-feed deviation tolerated by the control loop, in basis
/// points.
pub const DEFAULT_MAX_DEVIATION_BPS: u16 = 15;

/// Minimum number of successful Switchboard responses for a quality pass.
pub const MIN_ORACLE_RESPONSES: u32 = 3;

/// Combined oracle data from the Pyth and Switchboard feeds.
#[derive(Clone, Copy, Debug, PartialEq, Eq, Structural)]
pub struct OracleData {
    /// Pyth price, six implied decimals.
    pub pyth_price: i64,
    /// Switchboard price, six implied decimals.
    pub switchboard_price: i64,
    /// Average of the two prices, floored.
    pub avg_price: i64,
    /// Whether either feed is stale.
    pub is_stale: bool,
    /// Whether the feeds disagree beyond the allowed deviation.
    pub has_conflict: bool,
    /// Absolute deviation of the fused price from $1.00, in basis points.
    pub peg_deviation_bps: u16,
}

/// The fusion of two positive six-decimal prices and their staleness flags:
/// the fused price is their floored average, a conflict is an inter-feed
/// deviation beyond `max_deviation_bps`, and the peg deviation is measured
/// on the fused price.
pub open spec fn spec_fused_oracle_data(
    pyth_price: i64,
    switchboard_price: i64,
    pyth_stale: bool,
    switchboard_stale: bool,
    max_deviation_bps: u16,
) -> OracleData {
    let avg = (pyth_price + switchboard_price) / 2;
    let diff = if pyth_price >= switchboard_price {
        pyth_price - switchboard_price
    } else {
        switchboard_price - pyth_price
    };
    let deviation_bps = (diff * 10000) / avg;
    OracleData {
        pyth_price,
        switchboard_price,
        avg_price: avg as i64,
        is_stale: pyth_stale || switchboard_stale,
        has_conflict: deviation_bps > max_deviation_bps,
        peg_deviation_bps: spec_peg_bps(avg) as u16,
    }
}

/// Fuse two positive normalized prices and their staleness flags into an
/// `OracleData`, using widened intermediate arithmetic throughout.
pub fn fuse_oracle_data(
    pyth_price: i64,
    switchboard_price: i64,
    pyth_stale: bool,
    switchboard_stale: bool,
    max_deviation_bps: u16,
) -> (od: OracleData)
    requires
        pyth_price >= 1,
        switchboard_price >= 1,
    ensures
        od == spec_fused_oracle_data(
            pyth_price,
            switchboard_price,
            pyth_stale,
            switchboard_stale,
            max_deviation_bps,
        ),
{
    let p = pyth_price as i128;
    let s = switchboard_price as i128;
    let avg_wide = (p + s) / 2;
    let avg = avg_wide as i64;
    let diff = if p >= s {
        p - s
    } else {
        s - p
    };
    let deviation_bps = diff * 10000 / avg_wide;
    let peg = calculate_peg_bps(avg);
    OracleData {
        pyth_price,
        switchboard_price,
        avg_price: avg,
        is_stale: pyth_stale || switchboard_stale,
        has_conflict: deviation_bps > max_deviation_bps as i128,
        peg_deviation_bps: peg,
    }
}

/// A price the Pyth reader reports is at least one unit.
pub proof fn lemma_pyth_price_positive(price: int, expo: int)
    requires
        price > 0,
    ensures
        spec_pyth_normalized(price, expo) matches Ok(v) ==> v >= 1,
{
    if expo >= 0 {
        lemma_pow10_monotone(0, expo as nat);
        assert(price * pow10(expo as nat) * 1_000_000 >= 1) by (nonlinear_arith)
            requires
                price >= 1,
                pow10(expo as nat) >= 1,
        ;
    } else if -expo <= 38 {
        lemma_pow10_monotone(0, (-expo) as nat);
        lemma_div_pos_is_pos(price * 1_000_000, pow10((-expo) as nat));
    }
}

/// A price the Switchboard reader reports is at least one unit.
pub proof fn lemma_switchboard_price_positive(mantissa: int, scale: int)
    requires
        mantissa > 0,
    ensures
        spec_normalize_decimal(mantissa, scale) matches Ok(v) ==> v >= 1,
{
    if scale >= 6 {
        if scale - 6 <= 38 {
            lemma_pow10_monotone(0, (scale - 6) as nat);
            lemma_div_pos_is_pos(mantissa, pow10((scale - 6) as nat));
        }
    } else {
        lemma_pow10_monotone(0, (6 - scale) as nat);
        assert(mantissa * pow10((6 - scale) as nat) >= 1) by (nonlinear_arith)
            requires
                mantissa >= 1,
                pow10((6 - scale) as nat) >= 1,
        ;
    }
}

/// The whole oracle pipeline of one control-loop invocation: both prices
/// normalized, both staleness checks, then fusion; the first failing step
/// decides the error.
pub open spec fn spec_fetch_oracle_data(
    pyth: Seq<u8>,
    switchboard: Seq<u8>,
    max_stale_slots: u64,
    max_deviation_bps: u16,
    now_ts: int,
    current_slot: u64,
) -> Result<OracleData, ErrorCode> {
    match spec_pyth_price(pyth) {
        Err(e) => Err(e),
        Ok(p) => match spec_switchboard_price(switchboard) {
            Err(e) => Err(e),
            Ok(s) => match spec_pyth_stale(pyth, max_stale_slots, now_ts) {
                Err(e) => Err(e),
                Ok(pst) => match spec_switchboard_stale(switchboard, max_stale_slots, current_slot) {
                    Err(e) => Err(e),
                    Ok(sst) => Ok(spec_fused_oracle_data(p, s, pst, sst, max_deviation_bps)),
                },
            },
        },
    }
}

/// Fetch prices from both oracle accounts and derive the fused reading:
/// normalized prices, staleness, inter-feed conflict and peg deviation.
pub fn fetch_oracle_data(
    pyth_data: &Vec<u8>,
    switchboard_data: &Vec<u8>,
    max_stale_slots: u64,
    max_deviation_bps: u16,
    now_ts: i64,
    current_slot: u64,
) -> (r: Result<OracleData, ErrorCode>)
    ensures
        r == spec_fetch_oracle_data(
            pyth_data@,
            switchboard_data@,
            max_stale_slots,
            max_deviation_bps,
            now_ts as int,
            current_slot,
        ),
{
    let pyth_price = match pyth::get_pyth_price(pyth_data) {
        Ok(p) => p,
        Err(e) => {
            return Err(e);
        },
    };
    let switchboard_price = match switchboard::get_switchboard_price(switchboard_data) {
        Ok(s) => s,
        Err(e) => {
            return Err(e);
        },
    };
    proof {
        // Both getters returned Ok, so both normalized prices are positive,
        // as fusion requires.
        match pyth_reading_of(pyth_data@) {
            Some(rd) => if rd.price > 0 {
                lemma_pyth_price_positive(rd.price as int, rd.expo as int);
            },
            None => (),
        }
        let mantissa = spec_i128_le(switchboard_data@, 352);
        if mantissa > 0 {
            lemma_switchboard_price_positive(mantissa, spec_u32_le(switchboard_data@, 368));
        }
    }
    let pyth_stale = match pyth::is_pyth_stale(pyth_data, max_stale_slots, now_ts) {
        Ok(b) => b,
        Err(e) => {
            return Err(e);
        },
    };
    let switchboard_stale = match switchboard::is_switchboard_stale(
        switchboard_data,
        max_stale_slots,
        current_slot,
    ) {
        Ok(b) => b,
        Err(e) => {
            return Err(e);
        },
    };
    Ok(
        fuse_oracle_data(
            pyth_price,
            switchboard_price,
            pyth_stale,
            switchboard_stale,
            max_deviation_bps,
        ),
    )
}

/// The advisory quality gate: false when the Pyth confidence interval
/// exceeds 1% of the price, or when the Switchboard round aggregates fewer
/// than the minimum number of successful responses.
///
/// Confidence and price carry the feed's native exponent, so their ratio
/// is taken at that shared scale — no rescaling can change it.  A feed
/// that is unreadable or non-positively priced fails with an error
/// instead of a quality verdict.
pub open spec fn spec_oracle_quality(pyth: Seq<u8>, switchboard: Seq<u8>) -> Result<
    bool,
    ErrorCode,
> {
    match pyth_reading_of(pyth) {
        None => Err(ErrorCode::PythPriceUnavailable),
        Some(rd) => if rd.price <= 0 {
            Err(ErrorCode::PythPriceUnavailable)
        } else if (rd.conf * 10000) / (rd.price as int) > 100 {
            Ok(false)
        } else {
            match spec_has_sufficient_responses(switchboard, MIN_ORACLE_RESPONSES) {
                Err(e) => Err(e),
                Ok(has) => Ok(has),
            }
        },
    }
}

/// Validate oracle data quality.  The verdict is advisory: the control
/// loop reports it but does not halt on it.
pub fn validate_oracle_quality(pyth_data: &Vec<u8>, switchboard_data: &Vec<u8>) -> (r: Result<
    bool,
    ErrorCode,
>)
    ensures
        r == spec_oracle_quality(pyth_data@, switchboard_data@),
{
    let reading = match pyth::load_pyth_reading(pyth_data) {
        Some(rd) => rd,
        None => {
            return Err(ErrorCode::PythPriceUnavailable);
        },
    };
    if reading.price <= 0 {
        return Err(ErrorCode::PythPriceUnavailable);
    }
    let conf_bps_wide = (reading.conf as u128) * 10000 / (reading.price as u128);
    if conf_bps_wide > 100 {
        return Ok(false);
    }
    match switchboard::has_sufficient_responses(switchboard_data, MIN_ORACLE_RESPONSES) {
        Ok(has) => Ok(has),
        Err(e) => Err(e),
    }
}

} // verus!
