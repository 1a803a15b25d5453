//! One depositor's share position.

use vstd::prelude::*;

use crate::state::vault::Vault;

verus! {

/// A depositor's position: created lazily on first deposit, never deleted
/// (a zero-share position is a valid resting state).
///
/// An `owner` of zero marks a freshly created, not yet claimed record; the
/// first deposit stamps the owner and the deposit timestamp.
#[derive(Clone, Copy, Debug, PartialEq, Eq, Structural)]
pub struct UserPosition {
    /// Identity of the depositor owning this position; zero while unclaimed.
    pub owner: u64,
    /// Vault shares owned by this depositor.
    pub shares: u64,
    /// Wall-clock timestamp of the first deposit.
    pub deposited_at: i64,
}

impl UserPosition {
    /// A position is consistent with the vault when it owns no more shares
    /// than are outstanding: the per-position slice of the ledger invariant
    /// that all positions together sum to `total_shares`.
    pub open spec fn consistent_with(self, vault: Vault) -> bool {
        self.shares <= vault.total_shares
    }
}

} // verus!
