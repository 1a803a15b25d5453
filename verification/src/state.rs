//! Persisted records of the vault: the singleton ledger and one position per
//! depositor.

pub mod user_position;
pub mod vault;
