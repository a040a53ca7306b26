//! Chain-wide constants.

pub mod currency;
