//! Time-value-of-money formulas.

pub mod fv;
