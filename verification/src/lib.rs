//! A carbon credit marketplace: credits are created, verified by an admin,
//! listed and bought in fractions through escrow.

pub mod types;
pub mod sums;
pub mod model;
pub mod laws;
pub mod market;
pub mod rules;
