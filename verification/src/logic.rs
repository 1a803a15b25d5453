//! Decision logic of the control loop.

pub mod state_machine;
