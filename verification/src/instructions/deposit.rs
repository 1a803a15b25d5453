//! Deposit of pooled assets against newly minted shares.

use vstd::arithmetic::mul::lemma_mul_upper_bound;
use vstd::prelude::*;

use crate::errors::ErrorCode;
use crate::state::user_position::UserPosition;
use crate::state::vault::Vault;

verus! {

/// The whole effect of a deposit: the shares minted by the vault's
/// conversion formula, the share totals grown by exactly that amount on
/// both records, and — for a previously unclaimed position — the owner and
/// first-deposit timestamp stamped.  A conversion failure, or share totals
/// that can no longer be represented, fail the whole transaction with no
/// partial effect.
pub open spec fn spec_deposit(
    vault: Vault,
    position: UserPosition,
    user: u64,
    amount: u64,
    now_ts: i64,
) -> Result<(Vault, UserPosition, u64), ErrorCode> {
    match vault.spec_deposit_shares(amount) {
        Err(e) => Err(e),
        Ok(shares) => if vault.total_shares + shares > u64::MAX {
            Err(ErrorCode::MathOverflow)
        } else {
            Ok(
                (
                    Vault { total_shares: (vault.total_shares + shares) as u64, ..vault },
                    UserPosition {
                        owner: if position.owner == 0 {
                            user
                        } else {
                            position.owner
                        },
                        shares: (position.shares + shares) as u64,
                        deposited_at: if position.owner == 0 {
                            now_ts
                        } else {
                            position.deposited_at
                        },
                    },
                    shares,
                ),
            )
        },
    }
}

/// Deposit `amount` asset units for the caller `user`, minting shares at
/// the current exchange rate.  The token transfer and share mint that
/// realize the returned share count happen outside the library, keyed by
/// the returned value; both records mutate only when the whole deposit
/// succeeds.
pub fn handler(
    vault: &mut Vault,
    user_position: &mut UserPosition,
    user: u64,
    amount: u64,
    now_ts: i64,
) -> (r: Result<u64, ErrorCode>)
    requires
        old(user_position).consistent_with(*old(vault)),
    ensures
        match spec_deposit(*old(vault), *old(user_position), user, amount, now_ts) {
            Ok((new_vault, new_position, shares)) => {
                &&& r == Ok::<u64, ErrorCode>(shares)
                &&& *final(vault) == new_vault
                &&& *final(user_position) == new_position
            },
            Err(e) => {
                &&& r == Err::<u64, ErrorCode>(e)
                &&& *final(vault) == *old(vault)
                &&& *final(user_position) == *old(user_position)
            },
        },
        final(user_position).consistent_with(*final(vault)),
{
    let shares: u64 = if vault.total_shares == 0 {
        amount
    } else {
        let equity = vault.equity();
        if equity == 0 {
            return Err(ErrorCode::MathOverflow);
        }
        proof {
            lemma_mul_upper_bound(amount as int, u64::MAX as int, vault.total_shares as int, u64::MAX as int);
        }
        let wide = (amount as u128) * (vault.total_shares as u128) / (equity as u128);
        if wide > u64::MAX as u128 {
            return Err(ErrorCode::MathOverflow);
        }
        wide as u64
    };
    let new_total_shares = match vault.total_shares.checked_add(shares) {
        Some(v) => v,
        None => {
            return Err(ErrorCode::MathOverflow);
        },
    };
    if user_position.owner == 0 {
        user_position.owner = user;
        user_position.deposited_at = now_ts;
    }
    user_position.shares = user_position.shares + shares;
    vault.total_shares = new_total_shares;
    Ok(shares)
}

} // verus!
