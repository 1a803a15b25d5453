//! The vault's entry points: initialization, deposit, withdrawal, and the
//! periodic control loop.

pub mod deposit;
pub mod initialize_vault;
pub mod rebalance;
pub mod withdraw;
