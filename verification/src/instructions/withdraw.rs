//! Withdrawal of pooled assets against burned shares.

use vstd::arithmetic::div_mod::lemma_div_is_ordered;
use vstd::arithmetic::div_mod::lemma_div_multiples_vanish;
use vstd::arithmetic::mul::lemma_mul_inequality;
use vstd::arithmetic::mul::lemma_mul_is_commutative;
use vstd::arithmetic::mul::lemma_mul_upper_bound;
use vstd::prelude::*;

use crate::errors::ErrorCode;
use crate::state::user_position::UserPosition;
use crate::state::vault::Vault;

verus! {

/// The whole effect of a withdrawal: shares beyond the caller's position
/// are rejected, the returned amount follows the vault's conversion
/// formula, the vault's liquid balance must cover it before any token
/// movement, and both share totals shrink by exactly the burned shares.
/// Any failure leaves both records untouched.
pub open spec fn spec_withdraw(
    vault: Vault,
    position: UserPosition,
    shares: u64,
    vault_usdc_balance: u64,
) -> Result<(Vault, UserPosition, u64), ErrorCode> {
    if position.shares < shares {
        Err(ErrorCode::InsufficientEquity)
    } else {
        match vault.spec_withdraw_amount(shares) {
            Err(e) => Err(e),
            Ok(amount) => if vault_usdc_balance < amount {
                Err(ErrorCode::InsufficientEquity)
            } else {
                Ok(
                    (
                        Vault { total_shares: (vault.total_shares - shares) as u64, ..vault },
                        UserPosition { shares: (position.shares - shares) as u64, ..position },
                        amount,
                    ),
                )
            },
        }
    }
}

/// Withdraw by burning `shares` of the caller's position, returning the
/// asset amount owed at the current exchange rate.  `vault_usdc_balance` is
/// the vault's liquid balance, which must cover the amount before the share
/// burn and token transfer are attempted outside the library.
pub fn handler(
    vault: &mut Vault,
    user_position: &mut UserPosition,
    shares: u64,
    vault_usdc_balance: u64,
) -> (r: Result<u64, ErrorCode>)
    requires
        old(user_position).consistent_with(*old(vault)),
    ensures
        match spec_withdraw(*old(vault), *old(user_position), shares, vault_usdc_balance) {
            Ok((new_vault, new_position, amount)) => {
                &&& r == Ok::<u64, ErrorCode>(amount)
                &&& *final(vault) == new_vault
                &&& *final(user_position) == new_position
            },
            Err(e) => {
                &&& r == Err::<u64, ErrorCode>(e)
                &&& *final(vault) == *old(vault)
                &&& *final(user_position) == *old(user_position)
            },
        },
        final(user_position).consistent_with(*final(vault)),
        final(vault).spec_equity() == old(vault).spec_equity(),
{
    if user_position.shares < shares {
        return Err(ErrorCode::InsufficientEquity);
    }
    if vault.total_shares == 0 {
        return Err(ErrorCode::MathOverflow);
    }
    let equity = vault.equity();
    proof {
        let sh = shares as int;
        let ts = vault.total_shares as int;
        let eq = equity as int;
        lemma_mul_upper_bound(sh, u64::MAX as int, eq, u64::MAX as int);
        lemma_mul_inequality(sh, ts, eq);
        lemma_mul_is_commutative(sh, eq);
        lemma_mul_is_commutative(ts, eq);
        lemma_div_is_ordered(sh * eq, ts * eq, ts);
        lemma_div_multiples_vanish(eq, ts);
    }
    let wide = (shares as u128) * (equity as u128) / (vault.total_shares as u128);
    let amount = wide as u64;
    if vault_usdc_balance < amount {
        return Err(ErrorCode::InsufficientEquity);
    }
    user_position.shares = user_position.shares - shares;
    vault.total_shares = vault.total_shares - shares;
    Ok(amount)
}

} // verus!
