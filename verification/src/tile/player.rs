use vstd::prelude::*;

use crate::tile::{Tile, TileType};

verus! {

/// Marks the cell that a player stands in.
#[derive(Clone, Copy, Debug, PartialEq, Eq, Structural)]
pub struct PlayerTile {}

impl PlayerTile {
    /// The player marker tile.
    pub fn new() -> (t: Tile)
        ensures
            t == Tile::Player(PlayerTile {}),
    {
        Tile::Player(PlayerTile {})
    }

    /// Always `TileType::Player`.
    pub fn get_type(&self) -> (t: TileType)
        ensures
            t == TileType::Player,
    {
        TileType::Player
    }

    /// The per-tick hook: a marker does nothing.
    pub fn update(&mut self)
        ensures
            *final(self) == *old(self),
        no_unwind
    {
    }
}

} // verus!
