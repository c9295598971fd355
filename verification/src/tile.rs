//! The contents of a grid cell.

use vstd::prelude::*;

pub mod air;
pub mod base;
pub mod player;

use crate::tile::air::EmptyTile;
use crate::tile::base::BaseTile;
use crate::tile::player::PlayerTile;

verus! {

/// Which variant a tile is, without its payload.
#[derive(Clone, Copy, Debug, PartialEq, Eq, Structural)]
pub enum TileType {
    Empty,
    Base,
    Player,
}

/// One grid cell's content. A tile has no position of its own: its place is
/// the slot of the grid that holds it.
#[derive(Clone, Copy, Debug, PartialEq, Eq, Structural)]
pub enum Tile {
    Empty(EmptyTile),
    Base(BaseTile),
    Player(PlayerTile),
}

impl Tile {
    /// The variant of this tile.
    pub open spec fn kind(self) -> TileType {
        match self {
            Tile::Empty(_) => TileType::Empty,
            Tile::Base(_) => TileType::Base,
            Tile::Player(_) => TileType::Player,
        }
    }

    /// A cell counts as occupied unless it holds the empty variant.
    pub open spec fn occupies(self) -> bool {
        self.kind() != TileType::Empty
    }

    /// Which variant this tile is.
    pub fn get_type(&self) -> (t: TileType)
        ensures
            t == self.kind(),
    {
        match self {
            Tile::Empty(t) => t.get_type(),
            Tile::Base(t) => t.get_type(),
            Tile::Player(t) => t.get_type(),
        }
    }

    /// The per-tick hook. No variant has any behaviour of its own yet, so the
    /// tile comes out as it went in.
    pub fn update(&mut self)
        ensures
            *final(self) == *old(self),
        no_unwind
    {
        match self {
            Tile::Empty(t) => t.update(),
            Tile::Base(t) => t.update(),
            Tile::Player(t) => t.update(),
        }
    }

    /// The terrain payload, where this tile is terrain.
    pub fn as_base(&self) -> (b: Option<&BaseTile>)
        ensures
            b == (match *self {
                Tile::Base(t) => Some(&t),
                _ => None,
            }),
    {
        match self {
            Tile::Base(t) => Some(t),
            _ => None,
        }
    }
}

} // verus!
