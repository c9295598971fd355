//! A fixed-size tile grid with layered terrain, occupancy-aware tile movement
//! and the integer state of the actors that live on it.

use vstd::prelude::*;

pub mod entity;
pub mod game;
pub mod generation;
pub mod model;
pub mod rng;
pub mod tile;
pub mod util;
pub mod world;

verus! {

/// Side length of the default square grid, in cells.
pub const GRID_SIZE: usize = 20;

/// A cell of the grid: column first, then row. Row 0 is the bottom row.
#[derive(Clone, Copy, Debug, PartialEq, Eq, Structural)]
pub struct TilePosition(pub usize, pub usize);

} // verus!
