//! Simulation core of a tile-based, top-down world: map layout, tile
//! interactions, and collision resolution between movers and tiles.
//!
//! Every coordinate, extent and magnitude is a whole number of a unit that the
//! caller fixes (tiles while laying out a map, world units while moving).

pub mod builder;
pub mod collision;
pub mod demo;
pub mod input;
pub mod interaction;
pub mod inventory;
pub mod location;
pub mod palette;
pub mod resolver;
pub mod sprites;
pub mod tile;
pub mod timer;
pub mod wander;
