//! Interactions between two agents that stand next to each other.

pub mod communication;
pub mod restoration;
pub mod skirmish;

pub use communication::Communication;
pub use restoration::Restoration;
pub use skirmish::Skirmish;
