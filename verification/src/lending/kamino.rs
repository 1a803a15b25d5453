//! Borrow-sizing arithmetic for the lending venue.
//!
//! The venue's capital movements (supply, borrow, repay, redeem) and its
//! health-factor lookup happen outside this library; only the amounts the
//! control loop decides on are computed here.

use vstd::arithmetic::div_mod::lemma_div_is_ordered;
use vstd::arithmetic::div_mod::lemma_div_multiples_vanish;
use vstd::arithmetic::mul::lemma_mul_inequality;
use vstd::arithmetic::mul::lemma_mul_upper_bound;
use vstd::arithmetic::mul::lemma_mul_is_commutative;
use vstd::prelude::*;

verus! {

/// The borrow total that realizes `target_leverage_bps` on
/// `total_supplied`: with leverage = supplied / (supplied − borrowed),
/// the target borrow is `supplied × (leverage − 10000) / leverage`, zero
/// whenever the target does not exceed 1.00x.
pub open spec fn spec_target_borrow(total_supplied: u64, target_leverage_bps: u16) -> int {
    if target_leverage_bps <= 10000 {
        0
    } else {
        (total_supplied * (target_leverage_bps - 10000)) / (target_leverage_bps as int)
    }
}

/// Calculate the target borrow amount for the given supplied total and
/// target leverage; the saturating numerator guards against a target at or
/// below 1.00x.
pub fn calculate_target_borrow(total_supplied: u64, target_leverage_bps: u16) -> (r: u64)
    ensures
        r == spec_target_borrow(total_supplied, target_leverage_bps),
        r <= total_supplied,
{
    if target_leverage_bps <= 10000 {
        return 0;
    }
    let supplied = total_supplied as u128;
    let leverage = target_leverage_bps as u128;
    proof {
        lemma_mul_upper_bound(supplied as int, u64::MAX as int, leverage - 10000, 55535);
    }
    let target = supplied * (leverage - 10000) / leverage;
    proof {
        let sup = total_supplied as int;
        let lv = target_leverage_bps as int;
        lemma_mul_inequality(lv - 10000, lv, sup);
        lemma_mul_is_commutative(sup, lv - 10000);
        lemma_mul_is_commutative(sup, lv);
        lemma_div_is_ordered(sup * (lv - 10000), sup * lv, lv);
        lemma_div_multiples_vanish(sup, lv);
    }
    target as u64
}

/// The amount whose repayment reduces the borrow total by
/// `reduction_percentage` percent, floored.
pub open spec fn spec_repay_amount(total_borrowed: u64, reduction_percentage: u8) -> int {
    (total_borrowed * reduction_percentage) / 100
}

/// Calculate the amount to repay to reduce the borrow total by the given
/// percentage (e.g. 10 for 10%).
pub fn calculate_repay_amount(total_borrowed: u64, reduction_percentage: u8) -> (r: u64)
    requires
        reduction_percentage <= 100,
    ensures
        r == spec_repay_amount(total_borrowed, reduction_percentage),
        r <= total_borrowed,
{
    proof {
        lemma_mul_upper_bound(total_borrowed as int, u64::MAX as int, reduction_percentage as int, 100);
    }
    let amount = (total_borrowed as u128) * (reduction_percentage as u128) / 100;
    proof {
        let b = total_borrowed as int;
        let p = reduction_percentage as int;
        lemma_mul_inequality(p, 100, b);
        lemma_mul_is_commutative(b, p);
        lemma_mul_is_commutative(b, 100);
        lemma_div_is_ordered(b * p, b * 100, 100);
        lemma_div_multiples_vanish(b, 100);
    }
    amount as u64
}

} // verus!
