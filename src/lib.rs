//! Grid-constrained movement and tile-state engine for an arcade-style maze
//! game: a circular actor on a tile grid, blocked by walls, re-centred on
//! turns, wrapped at the screen edges, and leaving a decaying trail of
//! recently visited tiles.
//!
//! Positions are whole screen pixels and times are whole milliseconds.

pub mod animation;
pub mod geometry;
pub mod locator;
pub mod maze;
pub mod movement;
pub mod scent;
pub mod simulation;
pub mod walls;
pub mod wrap;
