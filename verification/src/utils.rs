//! A collection of utilities for the model.

pub mod random;
pub mod store;
pub mod sync;
