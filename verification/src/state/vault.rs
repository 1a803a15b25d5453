//! The vault singleton: aggregate totals, clocks, and the fixed configuration
//! block, together with the equity, leverage and share-conversion formulas.

use vstd::arithmetic::div_mod::lemma_div_is_ordered;
use vstd::arithmetic::div_mod::lemma_div_multiples_vanish;
use vstd::arithmetic::div_mod::lemma_div_of0;
use vstd::arithmetic::div_mod::lemma_fundamental_div_mod;
use vstd::arithmetic::div_mod::lemma_mod_bound;
use vstd::arithmetic::mul::lemma_mul_inequality;
use vstd::arithmetic::mul::lemma_mul_is_commutative;
use vstd::arithmetic::mul::lemma_mul_is_distributive_add;
use vstd::arithmetic::mul::lemma_mul_nonnegative;
use vstd::prelude::*;

use crate::errors::ErrorCode;

verus! {

/// The single persisted vault record.
///
/// Identities of collaborating accounts (authority, mints, token accounts,
/// price feed) are opaque handles; the caller owns persistence and locking.
/// Totals are in the asset's smallest unit.  `last_rebalance_slot` and
/// `reexpansion_unlocked_at` are the two independent cooldown clocks: a
/// discrete slot counter and a wall-clock timestamp.
#[derive(Clone, Copy, Debug, PartialEq, Eq, Structural)]
pub struct Vault {
    /// Admin authority identity.
    pub authority: u64,
    /// Identity of the pooled-asset mint.
    pub usdc_mint: u64,
    /// Identity of the vault's pooled-asset token account.
    pub vault_usdc: u64,
    /// Identity of the share-token issuance.
    pub share_mint: u64,
    /// Identity of the Pyth price-feed account.
    pub pyth_usdc_feed: u64,

    /// Total asset units supplied to the lending venue.
    pub total_supplied: u64,
    /// Total asset units borrowed from the lending venue.
    pub total_borrowed: u64,
    /// Total vault shares outstanding.
    pub total_shares: u64,

    /// Slot of the last successful control-loop run.
    pub last_rebalance_slot: u64,
    /// Wall-clock timestamp before which re-expansion is forbidden.
    pub reexpansion_unlocked_at: i64,

    /// Leverage ceiling, in basis points (10000 = 1.00x).
    pub max_leverage_bps: u16,
    /// Health-factor floor, in basis points.
    pub hf_floor_bps: u16,
    /// Slots after which an oracle reading counts as stale.
    pub oracle_stale_slots: u64,
    /// Peg deviation that triggers contraction, in basis points.
    pub peg_warn_bps: u16,
    /// Peg deviation that triggers a full exit, in basis points.
    pub peg_exit_bps: u16,
    /// Peg deviation that triggers panic, in basis points.
    pub peg_panic_bps: u16,
    /// Minimum slots between control-loop runs.
    pub cooldown_slots: u64,
    /// Wall-clock seconds that a contraction locks out re-expansion.
    pub reexpansion_delay_sec: i64,
}

impl Vault {
    /// Equity of the vault: supplied capital minus borrowed capital,
    /// saturating at zero.
    pub open spec fn spec_equity(self) -> int {
        if self.total_supplied >= self.total_borrowed {
            self.total_supplied - self.total_borrowed
        } else {
            0
        }
    }

    /// Current equity = supplied − borrowed, saturating so that the result is
    /// never negative and the call never faults.
    pub fn equity(&self) -> (r: u64)
        ensures
            r == self.spec_equity(),
    {
        if self.total_supplied >= self.total_borrowed {
            self.total_supplied - self.total_borrowed
        } else {
            0
        }
    }

    /// Leverage in basis points (10000 = 1.00x): supplied over equity, zero
    /// when equity is zero, clamped to the representable range.
    pub open spec fn spec_leverage_bps(self) -> int {
        if self.spec_equity() == 0 {
            0
        } else {
            let l = (self.total_supplied * 10000) / self.spec_equity();
            if l > u16::MAX { u16::MAX as int } else { l }
        }
    }

    /// Current leverage in basis points, computed with a widened intermediate
    /// product; a quotient beyond `u16::MAX` saturates rather than truncates.
    pub fn leverage_bps(&self) -> (r: u16)
        ensures
            r == self.spec_leverage_bps(),
    {
        let eq = self.equity();
        if eq == 0 {
            return 0;
        }
        let l: u128 = (self.total_supplied as u128) * 10000 / (eq as u128);
        if l > u16::MAX as u128 {
            u16::MAX
        } else {
            l as u16
        }
    }

    /// Shares minted for a deposit of `amount`: the first depositor sets a
    /// 1:1 rate; afterwards `amount × total_shares / equity`, floored, and a
    /// quotient that cannot be represented (equity zero, or beyond `u64`)
    /// fails with `MathOverflow`.
    pub open spec fn spec_deposit_shares(self, amount: u64) -> Result<u64, ErrorCode> {
        if self.total_shares == 0 {
            Ok(amount)
        } else if self.spec_equity() == 0 {
            Err(ErrorCode::MathOverflow)
        } else {
            let s = (amount * self.total_shares) / self.spec_equity();
            if s <= u64::MAX {
                Ok(s as u64)
            } else {
                Err(ErrorCode::MathOverflow)
            }
        }
    }

    /// Asset units returned for burning `shares`:
    /// `shares × equity / total_shares`, floored; with no shares outstanding
    /// the quotient cannot be formed and the conversion fails with
    /// `MathOverflow`.
    pub open spec fn spec_withdraw_amount(self, shares: u64) -> Result<u64, ErrorCode> {
        if self.total_shares == 0 {
            Err(ErrorCode::MathOverflow)
        } else {
            let amt = (shares * self.spec_equity()) / (self.total_shares as int);
            if amt <= u64::MAX {
                Ok(amt as u64)
            } else {
                Err(ErrorCode::MathOverflow)
            }
        }
    }
}

/// The share-minting formula pinned down: an empty vault mints one share
/// per unit — in particular more than zero shares for any positive amount —
/// and a live vault mints the floored proportional amount.
pub proof fn lemma_deposit_shares_formula(vault: Vault, amount: u64)
    ensures
        vault.total_shares == 0 ==> vault.spec_deposit_shares(amount) == Ok::<u64, ErrorCode>(
            amount,
        ),
        vault.total_shares == 0 && amount > 0 ==> (vault.spec_deposit_shares(amount) matches Ok(s)
            && s > 0),
        vault.total_shares > 0 && vault.spec_equity() > 0 && (amount * vault.total_shares)
            / vault.spec_equity() <= u64::MAX ==> vault.spec_deposit_shares(amount)
            == Ok::<u64, ErrorCode>(
            (((amount * vault.total_shares) / vault.spec_equity()) as u64),
        ),
{
}

/// Round-trip bound: the asset amount owed for the shares a deposit mints,
/// withdrawn immediately afterwards, never exceeds the deposited amount —
/// rounding never favors the withdrawer.
///
/// An empty share supply over positive equity is left out: there the first
/// depositor's shares own all pre-existing equity, and the bound fails.
pub proof fn lemma_deposit_withdraw_round_trip(vault: Vault, amount: u64)
    requires
        vault.total_shares == 0 ==> vault.spec_equity() == 0 && amount >= 1,
    ensures
        vault.spec_deposit_shares(amount) matches Ok(shares) ==> vault.total_shares + shares
            <= u64::MAX ==> ({
            let mid = Vault { total_shares: (vault.total_shares + shares) as u64, ..vault };
            mid.spec_withdraw_amount(shares) matches Ok(returned) && returned <= amount
        }),
{
    match vault.spec_deposit_shares(amount) {
        Ok(shares) => {
            if vault.total_shares + shares <= u64::MAX {
                let a = amount as int;
                let s = vault.total_shares as int;
                let e = vault.spec_equity();
                let sh = shares as int;
                let sp = s + sh;
                let mid = Vault { total_shares: (vault.total_shares + shares) as u64, ..vault };
                assert(mid.spec_equity() == e);
                if s == 0 {
                    // Empty vault: equity is zero, so nothing can come back.
                    assert(sh == a >= 1);
                    assert(sh * e == 0);
                    lemma_div_of0(sp);
                } else {
                    // Live vault: shares == floor(a * s / e) with e > 0.
                    // First, the amount owed never exceeds the equity ...
                    lemma_mul_inequality(sh, sp, e);
                    lemma_div_is_ordered(sh * e, sp * e, sp);
                    lemma_div_multiples_vanish(e, sp);
                    assert((sh * e) / sp <= e);
                    // ... and never exceeds the deposit: sh * e <= a * s
                    // because sh is the floored quotient of a * s by e,
                    lemma_fundamental_div_mod(a * s, e);
                    lemma_mod_bound(a * s, e);
                    assert(sh * e <= a * s) by {
                        lemma_mul_is_commutative(sh, e);
                    }
                    // and a * s is at most a * (s + sh).
                    lemma_mul_is_distributive_add(a, s, sh);
                    lemma_mul_nonnegative(a, sh);
                    assert(a * s <= a * sp);
                    lemma_div_is_ordered(sh * e, a * sp, sp);
                    lemma_mul_is_commutative(a, sp);
                    lemma_div_multiples_vanish(a, sp);
                    assert((sh * e) / sp <= a);
                }
            }
        },
        Err(_) => {},
    }
}

} // verus!
