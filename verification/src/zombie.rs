//! The human-versus-zombie scenario: a concrete exerciser that drives
//! the core through ordinary turns.  Agents stand on a shared toroidal
//! grid whose occupied points carry agent identities, fight or help
//! their neighbors, and report sightings through the mailbox subsystem.

pub mod agents;
pub mod world;
