use vstd::prelude::*;

use crate::tile::{Tile, TileType};

verus! {

/// The content of a cell that holds nothing.
#[derive(Clone, Copy, Debug, PartialEq, Eq, Structural)]
pub struct EmptyTile;

impl EmptyTile {
    /// The empty tile.
    pub fn new() -> (t: Tile)
        ensures
            t == Tile::Empty(EmptyTile),
    {
        Tile::Empty(EmptyTile)
    }

    /// Always `TileType::Empty`.
    pub fn get_type(&self) -> (t: TileType)
        ensures
            t == TileType::Empty,
    {
        TileType::Empty
    }

    /// The per-tick hook: an empty cell does nothing.
    pub fn update(&mut self)
        ensures
            *final(self) == *old(self),
        no_unwind
    {
    }
}

} // verus!
