//! The concrete agent variants of the scenario.

pub mod human;
pub mod zombie;
