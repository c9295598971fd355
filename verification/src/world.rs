//! The world: grid storage, tile operations and the entity table.

use vstd::prelude::*;

use crate::entity::{Entity, Heading};
use crate::generation::{terrain, thicknesses_within};
use crate::model::WorldView;
use crate::tile::air::EmptyTile;
use crate::tile::base::TileTexture;
use crate::tile::{Tile, TileType};
use crate::TilePosition;

verus! {

/// A rectangular grid of tiles, stored row-major from the bottom row up, and
/// the entities that were added to it. The size is fixed at construction.
pub struct World {
    width: usize,
    height: usize,
    tiles: Vec<Vec<Tile>>,
    entities: Vec<Entity>,
}

impl View for World {
    type V = WorldView;

    closed spec fn view(&self) -> WorldView {
        WorldView {
            width: self.width,
            height: self.height,
            rows: Seq::new(self.tiles.len() as nat, |y: int| self.tiles[y]@),
            entities: self.entities@,
        }
    }
}

/// Names an entity of a world: its slot in the world's table. Entities are
/// never removed, so a handle stays good for the world that gave it.
#[derive(Clone, Copy, Debug, PartialEq, Eq, Structural)]
pub struct EntityHandle {
    index: usize,
}

impl EntityHandle {
    /// The slot of the table that the handle names.
    pub closed spec fn slot(self) -> usize {
        self.index
    }

    /// The slot of the table that the handle names.
    pub fn index(&self) -> (i: usize)
        ensures
            i == self.slot(),
    {
        self.index
    }
}

/// One coordinate `base` moved by `delta`, as an integer.
pub open spec fn shifted(base: usize, delta: isize) -> int {
    base + delta
}

/// The cell that `offset` leads to from `pos`, where both of its coordinates
/// are representable.
pub open spec fn offset_target(pos: TilePosition, offset: (isize, isize)) -> TilePosition {
    TilePosition(shifted(pos.0, offset.0) as usize, shifted(pos.1, offset.1) as usize)
}

/// Whether `pos` plus `offset` has no negative coordinate and none beyond
/// the largest index.
pub open spec fn offset_in_range(pos: TilePosition, offset: (isize, isize)) -> bool {
    &&& 0 <= shifted(pos.0, offset.0) <= usize::MAX
    &&& 0 <= shifted(pos.1, offset.1) <= usize::MAX
}

/// `base + delta` without wraparound: nothing if the sum is negative or
/// does not fit.
fn shift(base: usize, delta: isize) -> (r: Option<usize>)
    ensures
        r == (if 0 <= shifted(base, delta) <= usize::MAX {
            Some(shifted(base, delta) as usize)
        } else {
            None
        }),
{
    if delta >= 0 {
        let up = delta as usize;
        if up <= usize::MAX - base {
            Some(base + up)
        } else {
            None
        }
    } else {
        // -(delta + 1) + 1 is the magnitude, also where delta is the least isize
        let down = (-(delta + 1)) as usize;
        if down < base {
            Some(base - down - 1)
        } else {
            None
        }
    }
}

/// Writes `tile` into row `y`, column `x` of the storage and returns what
/// was there. No row changes its length and no other cell changes.
fn replace_cell(tiles: &mut Vec<Vec<Tile>>, x: usize, y: usize, tile: Tile) -> (replaced: Tile)
    requires
        y < old(tiles).len(),
        x < old(tiles)[y as int].len(),
    ensures
        final(tiles).len() == old(tiles).len(),
        forall|j: int| 0 <= j < old(tiles).len() && j != y ==> #[trigger] final(tiles)[j] == old(tiles)[j],
        final(tiles)[y as int]@ == old(tiles)[y as int]@.update(x as int, tile),
        replaced == old(tiles)[y as int][x as int],
    no_unwind
{
    let replaced = tiles[y][x];
    tiles[y][x] = tile;
    replaced
}

/// Writes `entity` into slot `index` of the table.
fn store_entity(entities: &mut Vec<Entity>, index: usize, entity: Entity)
    requires
        index < old(entities).len(),
    ensures
        final(entities)@ == old(entities)@.update(index as int, entity),
    no_unwind
{
    entities[index] = entity;
}

/// Runs the per-tick hook of every tile.
fn update_tiles(tiles: &mut Vec<Vec<Tile>>)
    ensures
        final(tiles).len() == old(tiles).len(),
        forall|j: int| 0 <= j < old(tiles).len() ==> (#[trigger] final(tiles)[j])@ == old(tiles)[j]@,
    no_unwind
{
    let mut y: usize = 0;
    while y < tiles.len()
        invariant
            tiles.len() == old(tiles).len(),
            forall|j: int| 0 <= j < tiles.len() ==> (#[trigger] tiles[j])@ == old(tiles)[j]@,
        decreases tiles.len() - y,
    {
        let mut x: usize = 0;
        while x < tiles[y].len()
            invariant
                y < tiles.len(),
                tiles.len() == old(tiles).len(),
                forall|j: int| 0 <= j < tiles.len() ==> (#[trigger] tiles[j])@ == old(tiles)[j]@,
            decreases tiles[y as int].len() - x,
        {
            tiles[y][x].update();
            x += 1;
        }
        y += 1;
    }
}

/// A mutable reference to row `y`, column `x` of the storage.
fn cell_mut(tiles: &mut Vec<Vec<Tile>>, x: usize, y: usize) -> (cell: &mut Tile)
    requires
        y < old(tiles).len(),
        x < old(tiles)[y as int].len(),
    ensures
        *cell == old(tiles)[y as int][x as int],
        final(tiles).len() == old(tiles).len(),
        forall|j: int| 0 <= j < old(tiles).len() && j != y ==> #[trigger] final(tiles)[j] == old(tiles)[j],
        final(tiles)[y as int]@ == old(tiles)[y as int]@.update(x as int, *final(cell)),
    no_unwind
{
    &mut tiles[y][x]
}

impl World {
    /// What holds of every world: its storage has `height` rows of `width`
    /// tiles each.
    #[verifier::type_invariant]
    pub closed spec fn inv(self) -> bool {
        &&& self.tiles.len() == self.height
        &&& forall|y: int| 0 <= y < self.height ==> (#[trigger] self.tiles[y]).len() == self.width
    }

    /// The grid of a world that meets its invariant is rectangular.
    pub proof fn lemma_inv_wf(&self)
        requires
            self.inv(),
        ensures
            self@.wf(),
    {
    }

    /// A world of the given size in which every cell is empty.
    pub fn empty(width: usize, height: usize) -> (w: World)
        ensures
            w@ == WorldView::empty(width, height),
            w@.wf(),
    {
        let mut rows: Vec<Vec<Tile>> = Vec::new();
        let mut y: usize = 0;
        while y < height
            invariant
                y <= height,
                rows.len() == y,
                forall|j: int| 0 <= j < y ==> (#[trigger] rows[j])@ == Seq::new(width as nat, |x: int| Tile::Empty(EmptyTile)),
            decreases height - y,
        {
            let mut columns: Vec<Tile> = Vec::new();
            let mut x: usize = 0;
            while x < width
                invariant
                    x <= width,
                    columns.len() == x,
                    forall|i: int| 0 <= i < x ==> columns[i] == Tile::Empty(EmptyTile),
                decreases width - x,
            {
                columns.push(EmptyTile::new());
                x += 1;
            }
            assert(columns@ =~= Seq::new(width as nat, |x: int| Tile::Empty(EmptyTile)));
            rows.push(columns);
            y += 1;
        }
        let w = World { width, height, tiles: rows, entities: Vec::new() };
        assert(w@.rows =~= WorldView::empty(width, height).rows);
        w
    }

    /// A world of the given size with generated terrain and no entities.
    /// The terrain is what `generate_with` makes of the empty grid for some
    /// thicknesses within the layers' ranges; which ones is left to chance.
    pub fn new(width: usize, height: usize) -> (w: World)
        ensures
            exists|stone: Seq<usize>, dirt: Seq<usize>, grass: Seq<usize>|
                thicknesses_within(stone, width, 3, 5) && thicknesses_within(dirt, width, 2, 4)
                    && thicknesses_within(grass, width, 1, 1) && w@ == #[trigger] WorldView::empty(
                    width,
                    height,
                ).generate_with(stone, dirt, grass),
            w@.wf(),
            w@.width == width,
            w@.height == height,
            w@.entities.len() == 0,
            forall|x: usize|
                x < width && 0 < height ==> #[trigger] w@.tile_at(TilePosition(x, 0)) == Some(
                    terrain(TileTexture::Bedrock),
                ),
    {
        let mut world = World::empty(width, height);
        world.generate();
        world
    }

    /// The number of columns.
    pub fn width(&self) -> (n: usize)
        ensures
            n == self@.width,
    {
        self.width
    }

    /// The number of rows.
    pub fn height(&self) -> (n: usize)
        ensures
            n == self@.height,
    {
        self.height
    }

    /// The tile at `pos`, or nothing if `pos` is outside the grid.
    pub fn get_tile(&self, pos: &TilePosition) -> (t: Option<&Tile>)
        ensures
            self@.wf(),
            t == (match self@.tile_at(*pos) {
                Some(tile) => Some(&tile),
                None => None,
            }),
    {
        proof {
            use_type_invariant(self);
        }
        if pos.1 < self.height && pos.0 < self.width {
            Some(&self.tiles[pos.1][pos.0])
        } else {
            None
        }
    }

    /// A mutable reference to the tile at `pos`, or nothing if `pos` is
    /// outside the grid. What the caller leaves in the reference is what
    /// the cell then holds.
    pub fn get_tile_mut(&mut self, pos: &TilePosition) -> (t: Option<&mut Tile>)
        ensures
            match t {
                Some(tile) => old(self)@.tile_at(*pos) == Some(*tile) && final(self)@ =~~= old(
                    self,
                )@.set_tile(*pos, *final(tile)),
                None => old(self)@.tile_at(*pos).is_none() && final(self)@ == old(self)@,
            },
    {
        proof {
            use_type_invariant(&*self);
        }
        if pos.1 < self.height && pos.0 < self.width {
            let tile = cell_mut(&mut self.tiles, pos.0, pos.1);
            Some(tile)
        } else {
            None
        }
    }

    /// Whether the cell holds a tile other than the empty one. Cells outside
    /// the grid are never occupied.
    pub fn is_occupied(&self, pos: &TilePosition) -> (occupied: bool)
        ensures
            occupied == self@.is_occupied(*pos),
    {
        match self.get_tile(pos) {
            Some(t) => t.get_type() != TileType::Empty,
            None => false,
        }
    }

    /// Puts `tile` into the cell at `pos` and hands back the tile that was
    /// there. Outside the grid nothing changes and nothing is handed back.
    pub fn swap_in_tile(&mut self, pos: &TilePosition, tile: Tile) -> (replaced: Option<Tile>)
        ensures
            final(self)@ == old(self)@.set_tile(*pos, tile),
            final(self)@.wf(),
            replaced == old(self)@.tile_at(*pos),
    {
        proof {
            use_type_invariant(&*self);
        }
        if pos.1 < self.height && pos.0 < self.width {
            let replaced = replace_cell(&mut self.tiles, pos.0, pos.1, tile);
            assert(self@.rows =~~= old(self)@.set_tile(*pos, tile).rows);
            Some(replaced)
        } else {
            None
        }
    }

    /// Empties the cell at `pos` and hands back the tile that was there.
    pub fn remove_tile(&mut self, pos: &TilePosition) -> (removed: Option<Tile>)
        ensures
            final(self)@ == old(self)@.set_tile(*pos, Tile::Empty(EmptyTile)),
            final(self)@.wf(),
            removed == old(self)@.tile_at(*pos),
    {
        let replacement_tile = EmptyTile::new();
        self.swap_in_tile(pos, replacement_tile)
    }

    /// Puts `tile` into the cell at `pos` and returns a reference to the tile
    /// now in the grid. Outside the grid nothing changes and nothing is
    /// returned.
    pub fn set_tile(&mut self, pos: &TilePosition, tile: Tile) -> (placed: Option<&Tile>)
        ensures
            final(self)@ == old(self)@.set_tile(*pos, tile),
            final(self)@.wf(),
            placed == (if old(self)@.in_bounds(*pos) {
                Some(&tile)
            } else {
                None
            }),
    {
        proof {
            use_type_invariant(&*self);
            assert(old(self)@.wf());
        }
        self.swap_in_tile(pos, tile);
        self.get_tile(pos)
    }

    /// Exchanges the tiles of two cells. Returns whether it did: unless both
    /// cells are in the grid, nothing changes.
    pub fn swap_tile(&mut self, a: &TilePosition, b: &TilePosition) -> (swapped: bool)
        ensures
            swapped == (old(self)@.in_bounds(*a) && old(self)@.in_bounds(*b)),
            final(self)@ == old(self)@.swap_tile(*a, *b),
            final(self)@.wf(),
    {
        proof {
            use_type_invariant(&*self);
        }
        if a.1 < self.height && a.0 < self.width && b.1 < self.height && b.0 < self.width {
            let tile_b = self.tiles[b.1][b.0];
            let tile_a = replace_cell(&mut self.tiles, a.0, a.1, tile_b);
            replace_cell(&mut self.tiles, b.0, b.1, tile_a);
            assert(self@.rows =~~= old(self)@.swap_tile(*a, *b).rows);
            true
        } else {
            false
        }
    }

    /// Moves the tile of `from` to `to` by exchanging the two cells. Fails,
    /// changing nothing, unless both cells are in the grid and `to` is free.
    pub fn mv_tile(&mut self, from: &TilePosition, to: &TilePosition) -> (moved: bool)
        ensures
            moved == old(self)@.can_move(*from, *to),
            final(self)@ == old(self)@.mv_tile(*from, *to),
            final(self)@.wf(),
    {
        proof {
            use_type_invariant(&*self);
        }
        if to.0 >= self.width || to.1 >= self.height {
            return false;
        } else if self.is_occupied(to) {
            return false;
        }
        self.swap_tile(from, to)
    }

    /// Moves the tile of `pos` by `offset` cells. The target is `pos` plus
    /// `offset` as integers: a target with a negative coordinate, or one
    /// that `mv_tile` refuses, fails and changes nothing. On success `pos`
    /// becomes the target.
    pub fn mv_tile_rel(&mut self, pos: &mut TilePosition, offset: (isize, isize)) -> (moved: bool)
        ensures
            moved == (offset_in_range(*old(pos), offset) && old(self)@.can_move(
                *old(pos),
                offset_target(*old(pos), offset),
            )),
            moved ==> *final(pos) == offset_target(*old(pos), offset) && final(self)@ == old(
                self,
            )@.mv_tile(*old(pos), *final(pos)),
            !moved ==> *final(pos) == *old(pos) && final(self)@ == old(self)@,
            shifted(old(pos).0, offset.0) < 0 || shifted(old(pos).1, offset.1) < 0 ==> !moved,
            final(self)@.wf(),
    {
        proof {
            use_type_invariant(&*self);
        }
        let new_x = match shift(pos.0, offset.0) {
            Some(x) => x,
            None => { return false; },
        };
        let new_y = match shift(pos.1, offset.1) {
            Some(y) => y,
            None => { return false; },
        };
        let new_pos = TilePosition(new_x, new_y);
        let from = *pos;
        if self.mv_tile(&from, &new_pos) {
            pos.0 = new_pos.0;
            pos.1 = new_pos.1;
            return true;
        }
        false
    }

    /// Whether an actor heading along one axis may move on: it must be
    /// heading somewhere, and the cell `ahead`, where its leading edge would
    /// be, must not be occupied. Cells outside the grid block no one.
    pub fn may_advance(&self, heading: Heading, ahead: &TilePosition) -> (clear: bool)
        ensures
            clear == (heading != Heading::Still && !self@.is_occupied(*ahead)),
    {
        match heading {
            Heading::Still => false,
            _ => !self.is_occupied(ahead),
        }
    }

    /// Adds `entity` to the table and returns its handle.
    pub fn add_entity(&mut self, entity: Entity) -> (handle: EntityHandle)
        ensures
            final(self)@ == old(self)@.add_entity(entity),
            final(self)@.wf(),
            handle.slot() == old(self)@.entities.len(),
    {
        proof {
            use_type_invariant(&*self);
        }
        let index = self.entities.len();
        // the table is grown outside the world, since growing may unwind
        let mut entities: Vec<Entity> = Vec::new();
        core::mem::swap(&mut self.entities, &mut entities);
        entities.push(entity);
        core::mem::swap(&mut self.entities, &mut entities);
        assert(self@.rows =~~= old(self)@.rows);
        EntityHandle { index }
    }

    /// Entities stay for the whole session: a removal leaves the world as
    /// it is.
    pub fn remove_entity(&mut self, handle: &EntityHandle)
        ensures
            final(self)@ == old(self)@,
            final(self)@.wf(),
    {
        proof {
            use_type_invariant(&*self);
        }
    }

    /// The entity that `handle` names, or nothing if this world never gave
    /// that handle out.
    pub fn get_entity(&self, handle: &EntityHandle) -> (e: Option<&Entity>)
        ensures
            e == (match self@.entity_at(handle.slot()) {
                Some(entity) => Some(&entity),
                None => None,
            }),
    {
        if handle.index < self.entities.len() {
            Some(&self.entities[handle.index])
        } else {
            None
        }
    }

    /// Puts `entity` in the slot that `handle` names. Returns whether the
    /// slot exists; if not, nothing changes.
    pub fn set_entity(&mut self, handle: &EntityHandle, entity: Entity) -> (stored: bool)
        ensures
            stored == (handle.slot() < old(self)@.entities.len()),
            final(self)@ == old(self)@.set_entity(handle.slot(), entity),
            final(self)@.wf(),
    {
        proof {
            use_type_invariant(&*self);
        }
        if handle.index < self.entities.len() {
            store_entity(&mut self.entities, handle.index, entity);
            assert(self@.rows =~~= old(self)@.rows);
            true
        } else {
            false
        }
    }

    /// One tick of the grid: runs the per-tick hook of every tile, row by
    /// row. No tile variant does anything in its hook yet, so the world
    /// stays as it is. The entities' motion is the caller's to run after
    /// this, in the order of their handles.
    pub fn update(&mut self)
        ensures
            final(self)@ == old(self)@,
            final(self)@.wf(),
    {
        proof {
            use_type_invariant(&*self);
        }
        update_tiles(&mut self.tiles);
        assert(self@.rows =~~= old(self)@.rows);
    }
}

} // verus!
