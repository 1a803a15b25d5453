//! Sizing formulas for the lending venue.

pub mod kamino;
