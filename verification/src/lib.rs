//! A spatial-topology engine (a toroidal grid of addressable, stateful
//! positions) combined with an inter-agent mailbox subsystem (per-agent
//! inboxes and outboxes routed through a shared address registry, with
//! timeout-bounded delivery and partial-failure aggregation), built on a
//! single greedy lock primitive (a retrying, optionally timeout-bounded
//! exclusive/shared lock over a guarded cell).

pub mod agent;
pub mod context;
pub mod environment;
pub mod message;
pub mod utils;
pub mod zombie;
