//! What an agent can do in one turn: move, pick a tile, and interact
//! with its neighbors.

pub mod interaction;
pub mod movement;
pub mod tile;
