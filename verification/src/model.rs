//! The mathematical model of a world: what the contracts of `World` speak of.

use vstd::prelude::*;

use crate::entity::Entity;
use crate::tile::air::EmptyTile;
use crate::tile::Tile;
use crate::TilePosition;

verus! {

/// A world as a value: the grid as rows from the bottom up, each row a
/// sequence of tiles from left to right, and the entities in insertion order.
#[verifier::ext_equal]
pub struct WorldView {
    pub width: usize,
    pub height: usize,
    pub rows: Seq<Seq<Tile>>,
    pub entities: Seq<Entity>,
}

impl WorldView {
    /// The grid is rectangular: `height` rows of `width` tiles each.
    pub open spec fn wf(self) -> bool {
        &&& self.rows.len() == self.height
        &&& forall|y: int| 0 <= y < self.height ==> (#[trigger] self.rows[y]).len() == self.width
    }

    /// Whether `pos` is a cell of the grid.
    pub open spec fn in_bounds(self, pos: TilePosition) -> bool {
        pos.0 < self.width && pos.1 < self.height
    }

    /// The tile in a cell, or nothing outside the grid.
    pub open spec fn tile_at(self, pos: TilePosition) -> Option<Tile> {
        if self.in_bounds(pos) {
            Some(self.rows[pos.1 as int][pos.0 as int])
        } else {
            None
        }
    }

    /// A cell is occupied when it is in the grid and its tile is not empty.
    pub open spec fn is_occupied(self, pos: TilePosition) -> bool {
        match self.tile_at(pos) {
            Some(t) => t.occupies(),
            None => false,
        }
    }

    /// The world with `tile` in cell `pos`; the same world if `pos` is outside.
    pub open spec fn set_tile(self, pos: TilePosition, tile: Tile) -> WorldView {
        if self.in_bounds(pos) {
            WorldView {
                rows: self.rows.update(pos.1 as int, self.rows[pos.1 as int].update(pos.0 as int, tile)),
                ..self
            }
        } else {
            self
        }
    }

    /// The world with the tiles of cells `a` and `b` exchanged; the same
    /// world unless both are in the grid.
    pub open spec fn swap_tile(self, a: TilePosition, b: TilePosition) -> WorldView {
        if self.in_bounds(a) && self.in_bounds(b) {
            self.set_tile(a, self.tile_at(b).unwrap()).set_tile(b, self.tile_at(a).unwrap())
        } else {
            self
        }
    }

    /// A move needs both cells in the grid and a free destination.
    pub open spec fn can_move(self, from: TilePosition, to: TilePosition) -> bool {
        self.in_bounds(from) && self.in_bounds(to) && !self.is_occupied(to)
    }

    /// The world after an attempt to move the tile of `from` to `to`.
    pub open spec fn mv_tile(self, from: TilePosition, to: TilePosition) -> WorldView {
        if self.can_move(from, to) {
            self.swap_tile(from, to)
        } else {
            self
        }
    }

    /// The world with one more entity, last in the table.
    pub open spec fn add_entity(self, entity: Entity) -> WorldView {
        WorldView { entities: self.entities.push(entity), ..self }
    }

    /// The entity in slot `index` of the table, or nothing beyond its end.
    pub open spec fn entity_at(self, index: usize) -> Option<Entity> {
        if index < self.entities.len() {
            Some(self.entities[index as int])
        } else {
            None
        }
    }

    /// The world with `entity` in slot `index`; the same world beyond the
    /// table's end.
    pub open spec fn set_entity(self, index: usize, entity: Entity) -> WorldView {
        if index < self.entities.len() {
            WorldView { entities: self.entities.update(index as int, entity), ..self }
        } else {
            self
        }
    }

    /// A grid of the given size with nothing in it.
    pub open spec fn empty(width: usize, height: usize) -> WorldView {
        WorldView {
            width,
            height,
            rows: Seq::new(height as nat, |y: int| Seq::new(width as nat, |x: int| Tile::Empty(EmptyTile))),
            entities: Seq::empty(),
        }
    }
}

/// Setting a tile keeps the grid rectangular and touches neither its size
/// nor the entities.
pub proof fn lemma_set_tile_keeps_shape(w: WorldView, pos: TilePosition, tile: Tile)
    requires
        w.wf(),
    ensures
        w.set_tile(pos, tile).wf(),
        w.set_tile(pos, tile).width == w.width,
        w.set_tile(pos, tile).height == w.height,
        w.set_tile(pos, tile).entities == w.entities,
{
}

/// A tile that was set in a cell of the grid is the tile found there
/// afterwards, and every other cell holds what it held.
pub proof fn lemma_get_after_set(w: WorldView, pos: TilePosition, tile: Tile)
    requires
        w.wf(),
        w.in_bounds(pos),
    ensures
        w.set_tile(pos, tile).tile_at(pos) == Some(tile),
        forall|other: TilePosition|
            other != pos ==> #[trigger] w.set_tile(pos, tile).tile_at(other) == w.tile_at(other),
{
}

/// Outside the grid there is no tile, and nothing is occupied.
pub proof fn lemma_outside_is_free(w: WorldView, pos: TilePosition)
    requires
        !w.in_bounds(pos),
    ensures
        w.tile_at(pos).is_none(),
        !w.is_occupied(pos),
{
}

/// A move to a cell that is occupied or outside the grid is refused and
/// leaves the world as it was.
pub proof fn lemma_move_refused(w: WorldView, from: TilePosition, to: TilePosition)
    requires
        w.is_occupied(to) || !w.in_bounds(to),
    ensures
        !w.can_move(from, to),
        w.mv_tile(from, to) == w,
{
}

/// A move from a cell of the grid to a free cell of the grid is carried
/// out: afterwards each of the two cells holds what the other held, and
/// every other cell holds what it held.
pub proof fn lemma_move_exchanges(w: WorldView, from: TilePosition, to: TilePosition)
    requires
        w.wf(),
        w.in_bounds(from),
        w.in_bounds(to),
        !w.is_occupied(to),
    ensures
        w.can_move(from, to),
        w.mv_tile(from, to).wf(),
        w.mv_tile(from, to).tile_at(from) == w.tile_at(to),
        w.mv_tile(from, to).tile_at(to) == w.tile_at(from),
        forall|other: TilePosition|
            other != from && other != to ==> #[trigger] w.mv_tile(from, to).tile_at(other)
                == w.tile_at(other),
{
}

} // verus!
