//! Layered terrain: a floor of bedrock, then bands of lighter materials,
//! each grown column by column from the bottom up.

use vstd::prelude::*;

use rand::rngs::ThreadRng;

use crate::model::WorldView;
use crate::rng::gen_range_inclusive;
use crate::tile::air::EmptyTile;
use crate::tile::base::{BaseTile, TileTexture};
use crate::tile::Tile;
use crate::world::World;
use crate::TilePosition;

verus! {

/// The terrain tile of one material.
pub open spec fn terrain(texture: TileTexture) -> Tile {
    Tile::Base(BaseTile { texture })
}

/// Whether every thickness of `hs`, one per column of a grid `width` wide,
/// lies in `low..=high`.
pub open spec fn thicknesses_within(hs: Seq<usize>, width: usize, low: usize, high: usize) -> bool {
    &&& hs.len() == width
    &&& forall|x: int| 0 <= x < hs.len() ==> low <= #[trigger] hs[x] <= high
}

impl WorldView {
    /// Whether a layer may be placed in column `x`, row `y`, going by the
    /// tile directly below: terrain below must be of a material in `valid`.
    /// Anything else below, or nothing below, lets the layer through.
    pub open spec fn bottom_allows(self, x: usize, y: usize, valid: Seq<TileTexture>) -> bool {
        y == 0 || match self.tile_at(TilePosition(x, (y - 1) as usize)) {
            Some(Tile::Base(below)) => valid.contains(below.texture),
            _ => true,
        }
    }

    /// Column `x` after a layer of `texture` has grown in it from row `y`
    /// upward, with `thickness` tiles still to place. Occupied cells are
    /// passed over and cost nothing. Growth ends when the thickness is used
    /// up, at the top of the grid, or at the first free cell whose tile
    /// below does not allow the layer.
    pub open spec fn grow_column(
        self,
        x: usize,
        y: usize,
        thickness: usize,
        texture: TileTexture,
        valid: Seq<TileTexture>,
    ) -> WorldView
        decreases self.height - y,
    {
        let pos = TilePosition(x, y);
        if thickness == 0 || !self.in_bounds(pos) {
            self
        } else if self.is_occupied(pos) {
            self.grow_column(x, (y + 1) as usize, thickness, texture, valid)
        } else if !self.bottom_allows(x, y, valid) {
            self
        } else {
            self.set_tile(pos, terrain(texture)).grow_column(
                x,
                (y + 1) as usize,
                (thickness - 1) as usize,
                texture,
                valid,
            )
        }
    }

    /// The world after a layer has grown in the columns `0..hs.len()`, left
    /// to right, column `x` with thickness `hs[x]`, all from row `bottom_y`.
    pub open spec fn grow_layer(
        self,
        hs: Seq<usize>,
        texture: TileTexture,
        valid: Seq<TileTexture>,
        bottom_y: usize,
    ) -> WorldView
        decreases hs.len(),
    {
        if hs.len() == 0 {
            self
        } else {
            self.grow_layer(hs.drop_last(), texture, valid, bottom_y).grow_column(
                (hs.len() - 1) as usize,
                bottom_y,
                hs.last(),
                texture,
                valid,
            )
        }
    }

    /// The world with its bottom row turned to bedrock.
    pub open spec fn with_floor(self) -> WorldView {
        if self.height > 0 {
            WorldView {
                rows: self.rows.update(
                    0,
                    Seq::new(self.width as nat, |x: int| terrain(TileTexture::Bedrock)),
                ),
                ..self
            }
        } else {
            self
        }
    }

    /// The terrain that generation makes of this world when the columns'
    /// thicknesses are `stone`, `dirt` and `grass`: the floor, then stone
    /// from row 0 on bedrock or stone, dirt from row 3 on stone or dirt, and
    /// grass from row 4 on dirt or grass.
    pub open spec fn generate_with(
        self,
        stone: Seq<usize>,
        dirt: Seq<usize>,
        grass: Seq<usize>,
    ) -> WorldView {
        self.with_floor().grow_layer(
            stone,
            TileTexture::Stone,
            seq![TileTexture::Bedrock, TileTexture::Stone],
            0,
        ).grow_layer(dirt, TileTexture::Dirt, seq![TileTexture::Stone, TileTexture::Dirt], 3).grow_layer(
            grass,
            TileTexture::Grass,
            seq![TileTexture::Dirt, TileTexture::Grass],
            4,
        )
    }

    /// Whether `self` is `before` with some cells that were free filled with
    /// `texture`, and nothing else changed.
    pub open spec fn fills_free_cells_of(self, before: WorldView, texture: TileTexture) -> bool {
        &&& self.width == before.width
        &&& self.height == before.height
        &&& self.entities == before.entities
        &&& self.wf()
        &&& forall|pos: TilePosition| #[trigger]
            self.tile_at(pos) == before.tile_at(pos) || (before.in_bounds(pos)
                && !before.is_occupied(pos) && self.tile_at(pos) == Some(terrain(texture)))
    }
}

/// Growing a layer in a column only fills free cells, and only in that
/// column.
pub proof fn lemma_grow_column_fills(
    w: WorldView,
    x: usize,
    y: usize,
    thickness: usize,
    texture: TileTexture,
    valid: Seq<TileTexture>,
)
    requires
        w.wf(),
    ensures
        w.grow_column(x, y, thickness, texture, valid).fills_free_cells_of(w, texture),
        forall|pos: TilePosition|
            pos.0 != x ==> #[trigger] w.grow_column(x, y, thickness, texture, valid).tile_at(pos)
                == w.tile_at(pos),
    decreases w.height - y,
{
    let pos = TilePosition(x, y);
    if thickness == 0 || !w.in_bounds(pos) {
    } else if w.is_occupied(pos) {
        lemma_grow_column_fills(w, x, (y + 1) as usize, thickness, texture, valid);
    } else if !w.bottom_allows(x, y, valid) {
    } else {
        let placed = w.set_tile(pos, terrain(texture));
        lemma_grow_column_fills(placed, x, (y + 1) as usize, (thickness - 1) as usize, texture, valid);
        let grown = placed.grow_column(x, (y + 1) as usize, (thickness - 1) as usize, texture, valid);
        assert forall|q: TilePosition| #[trigger]
            grown.tile_at(q) == w.tile_at(q) || (w.in_bounds(q) && !w.is_occupied(q)
                && grown.tile_at(q) == Some(terrain(texture))) by {
            assert(grown.tile_at(q) == placed.tile_at(q) || (placed.in_bounds(q)
                && !placed.is_occupied(q) && grown.tile_at(q) == Some(terrain(texture))));
        }
    }
}

/// Growing a layer over the columns only fills free cells.
pub proof fn lemma_grow_layer_fills(
    w: WorldView,
    hs: Seq<usize>,
    texture: TileTexture,
    valid: Seq<TileTexture>,
    bottom_y: usize,
)
    requires
        w.wf(),
    ensures
        w.grow_layer(hs, texture, valid, bottom_y).fills_free_cells_of(w, texture),
    decreases hs.len(),
{
    if hs.len() > 0 {
        let before = w.grow_layer(hs.drop_last(), texture, valid, bottom_y);
        lemma_grow_layer_fills(w, hs.drop_last(), texture, valid, bottom_y);
        lemma_grow_column_fills(before, (hs.len() - 1) as usize, bottom_y, hs.last(), texture, valid);
        let after = w.grow_layer(hs, texture, valid, bottom_y);
        assert forall|q: TilePosition| #[trigger]
            after.tile_at(q) == w.tile_at(q) || (w.in_bounds(q) && !w.is_occupied(q)
                && after.tile_at(q) == Some(terrain(texture))) by {
            assert(after.tile_at(q) == before.tile_at(q) || (before.in_bounds(q)
                && !before.is_occupied(q) && after.tile_at(q) == Some(terrain(texture))));
            assert(before.tile_at(q) == w.tile_at(q) || (w.in_bounds(q) && !w.is_occupied(q)
                && before.tile_at(q) == Some(terrain(texture))));
        }
    }
}

/// After generation the grid has the size it had, and every cell of the
/// bottom row is bedrock, whatever the thicknesses were.
pub proof fn lemma_generated_floor_is_bedrock(
    w: WorldView,
    stone: Seq<usize>,
    dirt: Seq<usize>,
    grass: Seq<usize>,
)
    requires
        w.wf(),
    ensures
        w.generate_with(stone, dirt, grass).wf(),
        w.generate_with(stone, dirt, grass).width == w.width,
        w.generate_with(stone, dirt, grass).height == w.height,
        w.generate_with(stone, dirt, grass).entities == w.entities,
        forall|x: usize|
            x < w.width && 0 < w.height ==> #[trigger] w.generate_with(stone, dirt, grass).tile_at(
                TilePosition(x, 0),
            ) == Some(terrain(TileTexture::Bedrock)),
{
    let floor = w.with_floor();
    let stone_valid = seq![TileTexture::Bedrock, TileTexture::Stone];
    let dirt_valid = seq![TileTexture::Stone, TileTexture::Dirt];
    let grass_valid = seq![TileTexture::Dirt, TileTexture::Grass];
    let stoned = floor.grow_layer(stone, TileTexture::Stone, stone_valid, 0);
    let dirted = stoned.grow_layer(dirt, TileTexture::Dirt, dirt_valid, 3);
    let grassed = dirted.grow_layer(grass, TileTexture::Grass, grass_valid, 4);
    assert(floor.wf());
    lemma_grow_layer_fills(floor, stone, TileTexture::Stone, stone_valid, 0);
    lemma_grow_layer_fills(stoned, dirt, TileTexture::Dirt, dirt_valid, 3);
    lemma_grow_layer_fills(dirted, grass, TileTexture::Grass, grass_valid, 4);
    assert forall|x: usize| x < w.width && 0 < w.height implies #[trigger] grassed.tile_at(
        TilePosition(x, 0),
    ) == Some(terrain(TileTexture::Bedrock)) by {
        let pos = TilePosition(x, 0);
        assert(floor.tile_at(pos) == Some(terrain(TileTexture::Bedrock)));
        assert(floor.is_occupied(pos));
        assert(stoned.tile_at(pos) == floor.tile_at(pos) || (floor.in_bounds(pos)
            && !floor.is_occupied(pos) && stoned.tile_at(pos) == Some(terrain(TileTexture::Stone))));
        assert(dirted.tile_at(pos) == stoned.tile_at(pos) || (stoned.in_bounds(pos)
            && !stoned.is_occupied(pos) && dirted.tile_at(pos) == Some(terrain(TileTexture::Dirt))));
        assert(grassed.tile_at(pos) == dirted.tile_at(pos) || (dirted.in_bounds(pos)
            && !dirted.is_occupied(pos) && grassed.tile_at(pos) == Some(terrain(TileTexture::Grass))));
    }
}

/// Whether two worlds of one size hold the same tiles in column `x`.
pub open spec fn same_column(a: WorldView, b: WorldView, x: usize) -> bool {
    &&& a.width == b.width
    &&& a.height == b.height
    &&& forall|y: usize| #[trigger] a.tile_at(TilePosition(x, y)) == b.tile_at(TilePosition(x, y))
}

/// Whether column `x` of `w` is a stack `top` rows high: occupied below row
/// `top`, free from there up.
pub open spec fn is_stack(w: WorldView, x: usize, top: usize) -> bool {
    &&& x < w.width
    &&& top <= w.height
    &&& forall|y: usize| y < w.height ==> #[trigger] w.is_occupied(TilePosition(x, y)) == (y < top)
}

/// The tile in row `y` of a column that generation built on an empty grid
/// with `stone` rows of stone and `dirt` rows of dirt: bedrock, the stone,
/// the dirt, one row of grass, and nothing above.
pub open spec fn layered_tile(stone: usize, dirt: usize, y: usize) -> Tile {
    if y == 0 {
        terrain(TileTexture::Bedrock)
    } else if y <= stone {
        terrain(TileTexture::Stone)
    } else if y <= stone + dirt {
        terrain(TileTexture::Dirt)
    } else if y == stone + dirt + 1 {
        terrain(TileTexture::Grass)
    } else {
        Tile::Empty(EmptyTile)
    }
}

/// What a layer does to a column depends on that column alone: in two
/// worlds that agree on column `x`, growing the same layer there gives
/// worlds that agree on it.
pub proof fn lemma_grow_column_is_local(
    a: WorldView,
    b: WorldView,
    x: usize,
    y: usize,
    thickness: usize,
    texture: TileTexture,
    valid: Seq<TileTexture>,
)
    requires
        a.wf(),
        b.wf(),
        same_column(a, b, x),
    ensures
        same_column(
            a.grow_column(x, y, thickness, texture, valid),
            b.grow_column(x, y, thickness, texture, valid),
            x,
        ),
    decreases a.height - y,
{
    let pos = TilePosition(x, y);
    assert(a.tile_at(pos) == b.tile_at(pos));
    if thickness == 0 || !a.in_bounds(pos) {
    } else if a.is_occupied(pos) {
        lemma_grow_column_is_local(a, b, x, (y + 1) as usize, thickness, texture, valid);
    } else {
        if y > 0 {
            let below = TilePosition(x, (y - 1) as usize);
            assert(a.tile_at(below) == b.tile_at(below));
        }
        if a.bottom_allows(x, y, valid) {
            let a_placed = a.set_tile(pos, terrain(texture));
            let b_placed = b.set_tile(pos, terrain(texture));
            assert forall|row: usize| #[trigger]
                a_placed.tile_at(TilePosition(x, row)) == b_placed.tile_at(TilePosition(x, row)) by {
                assert(a.tile_at(TilePosition(x, row)) == b.tile_at(TilePosition(x, row)));
            }
            lemma_grow_column_is_local(
                a_placed,
                b_placed,
                x,
                (y + 1) as usize,
                (thickness - 1) as usize,
                texture,
                valid,
            );
        }
    }
}

/// A layer grown over the columns does to each column what growing it in
/// that column alone does, and leaves the columns beyond `hs` alone.
pub proof fn lemma_grow_layer_by_column(
    w: WorldView,
    hs: Seq<usize>,
    texture: TileTexture,
    valid: Seq<TileTexture>,
    bottom_y: usize,
    x: usize,
)
    requires
        w.wf(),
        hs.len() <= usize::MAX,
    ensures
        x < hs.len() ==> same_column(
            w.grow_layer(hs, texture, valid, bottom_y),
            w.grow_column(x, bottom_y, hs[x as int], texture, valid),
            x,
        ),
        x >= hs.len() ==> same_column(w.grow_layer(hs, texture, valid, bottom_y), w, x),
    decreases hs.len(),
{
    if hs.len() > 0 {
        let last = (hs.len() - 1) as usize;
        let before = w.grow_layer(hs.drop_last(), texture, valid, bottom_y);
        let after = w.grow_layer(hs, texture, valid, bottom_y);
        lemma_grow_layer_fills(w, hs.drop_last(), texture, valid, bottom_y);
        lemma_grow_layer_by_column(w, hs.drop_last(), texture, valid, bottom_y, x);
        lemma_grow_column_fills(before, last, bottom_y, hs.last(), texture, valid);
        if x == last {
            lemma_grow_column_is_local(before, w, x, bottom_y, hs.last(), texture, valid);
        } else {
            assert forall|y: usize| #[trigger]
                after.tile_at(TilePosition(x, y)) == before.tile_at(TilePosition(x, y)) by {}
            if x < last {
                assert(hs.drop_last()[x as int] == hs[x as int]);
            }
        }
    }
}

/// On a stack whose top tile lets the layer through, a layer that starts
/// no higher than the top of the stack and fits under the top of the grid
/// goes on top of the stack, all of it, and changes nothing else in the
/// column.
pub proof fn lemma_grow_column_on_stack(
    w: WorldView,
    x: usize,
    top: usize,
    y: usize,
    thickness: usize,
    texture: TileTexture,
    valid: Seq<TileTexture>,
)
    requires
        w.wf(),
        is_stack(w, x, top),
        y <= top,
        top + thickness <= w.height,
        thickness > 0 ==> w.bottom_allows(x, top, valid),
        valid.contains(texture),
    ensures
        is_stack(w.grow_column(x, y, thickness, texture, valid), x, (top + thickness) as usize),
        forall|row: usize|
            #[trigger] w.grow_column(x, y, thickness, texture, valid).tile_at(TilePosition(x, row))
                == if top <= row < top + thickness {
                Some(terrain(texture))
            } else {
                w.tile_at(TilePosition(x, row))
            },
    decreases w.height - y,
{
    let pos = TilePosition(x, y);
    lemma_grow_column_fills(w, x, y, thickness, texture, valid);
    if thickness == 0 {
    } else if y < top {
        assert(w.is_occupied(pos));
        lemma_grow_column_on_stack(w, x, top, (y + 1) as usize, thickness, texture, valid);
    } else {
        assert(!w.is_occupied(pos));
        let placed = w.set_tile(pos, terrain(texture));
        let rest = (thickness - 1) as usize;
        assert forall|row: usize| row < placed.height implies #[trigger] placed.is_occupied(
            TilePosition(x, row),
        ) == (row < top + 1) by {
            assert(w.is_occupied(TilePosition(x, row)) == (row < top));
        }
        assert(placed.tile_at(pos) == Some(terrain(texture)));
        lemma_grow_column_on_stack(placed, x, (top + 1) as usize, (y + 1) as usize, rest, texture, valid);
        let grown = placed.grow_column(x, (y + 1) as usize, rest, texture, valid);
        assert forall|row: usize| #[trigger]
            grown.tile_at(TilePosition(x, row)) == if top <= row < top + thickness {
                Some(terrain(texture))
            } else {
                w.tile_at(TilePosition(x, row))
            } by {
            assert(grown.tile_at(TilePosition(x, row)) == if top + 1 <= row < top + 1 + rest {
                Some(terrain(texture))
            } else {
                placed.tile_at(TilePosition(x, row))
            });
        }
    }
}

/// Terrain generated on an empty grid is layered: where the thicknesses
/// are within the layers' ranges and the column fits under the top of the
/// grid, every column holds bedrock, then its stone, then its dirt, then
/// one row of grass, and nothing above.
pub proof fn lemma_generated_columns_are_layered(
    width: usize,
    height: usize,
    stone: Seq<usize>,
    dirt: Seq<usize>,
    grass: Seq<usize>,
    x: usize,
    y: usize,
)
    requires
        thicknesses_within(stone, width, 3, 5),
        thicknesses_within(dirt, width, 2, 4),
        thicknesses_within(grass, width, 1, 1),
        x < width,
        y < height,
        stone[x as int] + dirt[x as int] + 2 <= height,
    ensures
        WorldView::empty(width, height).generate_with(stone, dirt, grass).tile_at(TilePosition(x, y))
            == Some(layered_tile(stone[x as int], dirt[x as int], y)),
{
    let s = stone[x as int];
    let d = dirt[x as int];
    let stone_valid = seq![TileTexture::Bedrock, TileTexture::Stone];
    let dirt_valid = seq![TileTexture::Stone, TileTexture::Dirt];
    let grass_valid = seq![TileTexture::Dirt, TileTexture::Grass];
    assert(stone_valid[0] == TileTexture::Bedrock && stone_valid[1] == TileTexture::Stone);
    assert(dirt_valid[0] == TileTexture::Stone && dirt_valid[1] == TileTexture::Dirt);
    assert(grass_valid[0] == TileTexture::Dirt && grass_valid[1] == TileTexture::Grass);

    let bare = WorldView::empty(width, height);
    let floor = bare.with_floor();
    let stoned = floor.grow_layer(stone, TileTexture::Stone, stone_valid, 0);
    let dirted = stoned.grow_layer(dirt, TileTexture::Dirt, dirt_valid, 3);
    let grassed = dirted.grow_layer(grass, TileTexture::Grass, grass_valid, 4);
    assert(bare.wf());
    assert(floor.wf());
    lemma_grow_layer_fills(floor, stone, TileTexture::Stone, stone_valid, 0);
    lemma_grow_layer_fills(stoned, dirt, TileTexture::Dirt, dirt_valid, 3);

    // stone goes on the floor
    assert(is_stack(floor, x, 1)) by {
        assert forall|row: usize| row < floor.height implies #[trigger] floor.is_occupied(
            TilePosition(x, row),
        ) == (row < 1) by {}
    }
    assert(floor.tile_at(TilePosition(x, 0)) == Some(terrain(TileTexture::Bedrock)));
    let stone_column = floor.grow_column(x, 0, s, TileTexture::Stone, stone_valid);
    lemma_grow_column_on_stack(floor, x, 1, 0, s, TileTexture::Stone, stone_valid);
    lemma_grow_layer_by_column(floor, stone, TileTexture::Stone, stone_valid, 0, x);
    assert forall|row: usize| #[trigger]
        stoned.tile_at(TilePosition(x, row)) == stone_column.tile_at(TilePosition(x, row)) by {}
    assert(is_stack(stoned, x, (1 + s) as usize)) by {
        assert forall|row: usize| row < stoned.height implies #[trigger] stoned.is_occupied(
            TilePosition(x, row),
        ) == (row < 1 + s) by {
            assert(stoned.tile_at(TilePosition(x, row)) == stone_column.tile_at(TilePosition(x, row)));
            assert(stone_column.is_occupied(TilePosition(x, row)) == (row < 1 + s));
        }
    }
    assert(stoned.tile_at(TilePosition(x, s)) == Some(terrain(TileTexture::Stone)));

    // dirt goes on the stone
    let dirt_column = stoned.grow_column(x, 3, d, TileTexture::Dirt, dirt_valid);
    lemma_grow_column_on_stack(stoned, x, (1 + s) as usize, 3, d, TileTexture::Dirt, dirt_valid);
    lemma_grow_layer_by_column(stoned, dirt, TileTexture::Dirt, dirt_valid, 3, x);
    assert forall|row: usize| #[trigger]
        dirted.tile_at(TilePosition(x, row)) == dirt_column.tile_at(TilePosition(x, row)) by {}
    assert(is_stack(dirted, x, (1 + s + d) as usize)) by {
        assert forall|row: usize| row < dirted.height implies #[trigger] dirted.is_occupied(
            TilePosition(x, row),
        ) == (row < 1 + s + d) by {
            assert(dirted.tile_at(TilePosition(x, row)) == dirt_column.tile_at(TilePosition(x, row)));
            assert(dirt_column.is_occupied(TilePosition(x, row)) == (row < 1 + s + d));
        }
    }
    assert(dirted.tile_at(TilePosition(x, (s + d) as usize)) == Some(terrain(TileTexture::Dirt)));

    // grass goes on the dirt
    let grass_column = dirted.grow_column(x, 4, grass[x as int], TileTexture::Grass, grass_valid);
    lemma_grow_column_on_stack(
        dirted,
        x,
        (1 + s + d) as usize,
        4,
        grass[x as int],
        TileTexture::Grass,
        grass_valid,
    );
    lemma_grow_layer_by_column(dirted, grass, TileTexture::Grass, grass_valid, 4, x);
    let pos = TilePosition(x, y);
    assert(grassed.tile_at(pos) == grass_column.tile_at(pos));
    assert(dirted.tile_at(pos) == dirt_column.tile_at(pos));
    assert(stoned.tile_at(pos) == stone_column.tile_at(pos));
}

/// Whether `texture` is one of `list`.
fn texture_in(list: &Vec<TileTexture>, texture: TileTexture) -> (found: bool)
    ensures
        found == list@.contains(texture),
{
    let mut i: usize = 0;
    while i < list.len()
        invariant
            i <= list.len(),
            forall|j: int| 0 <= j < i ==> list[j] != texture,
        decreases list.len() - i,
    {
        if list[i] == texture {
            return true;
        }
        i += 1;
    }
    false
}

impl World {
    /// Whether the tile below column `x`, row `y` lets a layer with the
    /// valid bottoms `valid_bottoms` be placed there.
    fn bottom_allows(&self, x: usize, y: usize, valid_bottoms: &Vec<TileTexture>) -> (allowed: bool)
        ensures
            allowed == self@.bottom_allows(x, y, valid_bottoms@),
    {
        if y == 0 {
            return true;
        }
        match self.get_tile(&TilePosition(x, y - 1)) {
            Some(below) => match below.as_base() {
                Some(base) => texture_in(valid_bottoms, *base.get_texture()),
                None => true,
            },
            None => true,
        }
    }

    /// Grows a layer of `texture` in column `x`: walks up from row
    /// `bottom_y`, passes over occupied cells, and fills free ones until
    /// `thickness` tiles are placed, the top of the grid is reached, or the
    /// tile below a free cell is terrain of a material not in
    /// `valid_bottoms`. A column outside the grid is left alone.
    pub fn grow_column(
        &mut self,
        x: usize,
        bottom_y: usize,
        thickness: usize,
        texture: TileTexture,
        valid_bottoms: &Vec<TileTexture>,
    )
        ensures
            final(self)@ == old(self)@.grow_column(x, bottom_y, thickness, texture, valid_bottoms@),
            final(self)@.fills_free_cells_of(old(self)@, texture),
    {
        let ghost goal = self@.grow_column(x, bottom_y, thickness, texture, valid_bottoms@);
        proof {
            use_type_invariant(&*self);
            self.lemma_inv_wf();
            lemma_grow_column_fills(self@, x, bottom_y, thickness, texture, valid_bottoms@);
        }
        let mut height = thickness;
        let mut y = bottom_y;
        let mut growing = x < self.width();
        while growing && height > 0 && y < self.height()
            invariant
                self@.wf(),
                self@.width == old(self)@.width,
                growing ==> x < self@.width,
                goal == if growing {
                    self@.grow_column(x, y, height, texture, valid_bottoms@)
                } else {
                    self@
                },
            decreases (if growing { 1int } else { 0int }) + self@.height - y,
        {
            let pos = TilePosition(x, y);
            if self.is_occupied(&pos) {
                y += 1;
            } else if !self.bottom_allows(x, y, valid_bottoms) {
                growing = false;
            } else {
                self.set_tile(&pos, BaseTile::new(texture));
                height -= 1;
                y += 1;
            }
        }
    }

    /// Grows a layer of `texture` in every column, left to right, each with
    /// a thickness drawn from `height_bounds`, low end first, both ends
    /// included.
    pub fn generate_layer(
        &mut self,
        rng: &mut ThreadRng,
        texture: TileTexture,
        valid_bottoms: &Vec<TileTexture>,
        bottom_y: usize,
        height_bounds: (usize, usize),
    )
        requires
            height_bounds.0 <= height_bounds.1,
        ensures
            exists|hs: Seq<usize>|
                thicknesses_within(hs, old(self)@.width, height_bounds.0, height_bounds.1)
                    && final(self)@ == #[trigger] old(self)@.grow_layer(
                    hs,
                    texture,
                    valid_bottoms@,
                    bottom_y,
                ),
            final(self)@.fills_free_cells_of(old(self)@, texture),
    {
        proof {
            use_type_invariant(&*self);
            self.lemma_inv_wf();
        }
        let ghost mut hs: Seq<usize> = Seq::empty();
        let width = self.width();
        let mut x: usize = 0;
        while x < width
            invariant
                x <= width,
                width == old(self)@.width,
                old(self)@.wf(),
                height_bounds.0 <= height_bounds.1,
                thicknesses_within(hs, x, height_bounds.0, height_bounds.1),
                self@ == old(self)@.grow_layer(hs, texture, valid_bottoms@, bottom_y),
            decreases width - x,
        {
            let height = gen_range_inclusive(rng, height_bounds.0, height_bounds.1);
            proof {
                assert(hs.push(height).drop_last() =~= hs);
                hs = hs.push(height);
            }
            self.grow_column(x, bottom_y, height, texture, valid_bottoms);
            x += 1;
        }
        proof {
            lemma_grow_layer_fills(old(self)@, hs, texture, valid_bottoms@, bottom_y);
        }
    }

    /// Turns the bottom row to bedrock.
    fn lay_floor(&mut self)
        ensures
            final(self)@ == old(self)@.with_floor(),
            final(self)@.wf(),
    {
        proof {
            use_type_invariant(&*self);
            self.lemma_inv_wf();
        }
        let width = self.width();
        let mut x: usize = 0;
        while x < width
            invariant
                x <= width,
                width == self@.width,
                self@.wf(),
                self@.height == old(self)@.height,
                self@.entities == old(self)@.entities,
                self@.rows.len() == old(self)@.rows.len(),
                forall|y: int| 1 <= y < self@.height ==> #[trigger] self@.rows[y] == old(self)@.rows[y],
                self@.height > 0 ==> forall|i: int|
                    0 <= i < width ==> #[trigger] self@.rows[0][i] == if i < x {
                        terrain(TileTexture::Bedrock)
                    } else {
                        old(self)@.rows[0][i]
                    },
            decreases width - x,
        {
            let tile = BaseTile::new(TileTexture::Bedrock);
            let pos = TilePosition(x, 0);
            self.set_tile(&pos, tile);
            x += 1;
        }
        assert(self@.rows =~~= old(self)@.with_floor().rows);
    }

    /// Generates the terrain: the floor, then stone, dirt and grass, each
    /// column's thicknesses drawn at random: stone 3 to 5, dirt 2 to 4,
    /// grass 1.
    pub fn generate(&mut self)
        ensures
            exists|stone: Seq<usize>, dirt: Seq<usize>, grass: Seq<usize>|
                thicknesses_within(stone, old(self)@.width, 3, 5) && thicknesses_within(
                    dirt,
                    old(self)@.width,
                    2,
                    4,
                ) && thicknesses_within(grass, old(self)@.width, 1, 1) && final(self)@
                    == #[trigger] old(self)@.generate_with(stone, dirt, grass),
            final(self)@.wf(),
            final(self)@.width == old(self)@.width,
            final(self)@.height == old(self)@.height,
            final(self)@.entities == old(self)@.entities,
            forall|x: usize|
                x < old(self)@.width && 0 < old(self)@.height ==> #[trigger] final(self)@.tile_at(
                    TilePosition(x, 0),
                ) == Some(terrain(TileTexture::Bedrock)),
    {
        proof {
            use_type_invariant(&*self);
            self.lemma_inv_wf();
        }
        let mut rng = rand::thread_rng();
        self.lay_floor();
        let ghost floor = self@;
        let stone_bottoms = vec![TileTexture::Bedrock, TileTexture::Stone];
        let dirt_bottoms = vec![TileTexture::Stone, TileTexture::Dirt];
        let grass_bottoms = vec![TileTexture::Dirt, TileTexture::Grass];
        assert(stone_bottoms@ =~= seq![TileTexture::Bedrock, TileTexture::Stone]);
        assert(dirt_bottoms@ =~= seq![TileTexture::Stone, TileTexture::Dirt]);
        assert(grass_bottoms@ =~= seq![TileTexture::Dirt, TileTexture::Grass]);
        self.generate_layer(&mut rng, TileTexture::Stone, &stone_bottoms, 0, (3, 5));
        let ghost stoned = self@;
        self.generate_layer(&mut rng, TileTexture::Dirt, &dirt_bottoms, 3, (2, 4));
        let ghost dirted = self@;
        self.generate_layer(&mut rng, TileTexture::Grass, &grass_bottoms, 4, (1, 1));
        proof {
            let stone = choose|hs: Seq<usize>|
                thicknesses_within(hs, floor.width, 3, 5) && stoned == #[trigger] floor.grow_layer(
                    hs,
                    TileTexture::Stone,
                    stone_bottoms@,
                    0,
                );
            let dirt = choose|hs: Seq<usize>|
                thicknesses_within(hs, stoned.width, 2, 4) && dirted == #[trigger] stoned.grow_layer(
                    hs,
                    TileTexture::Dirt,
                    dirt_bottoms@,
                    3,
                );
            let grass = choose|hs: Seq<usize>|
                thicknesses_within(hs, dirted.width, 1, 1) && self@ == #[trigger] dirted.grow_layer(
                    hs,
                    TileTexture::Grass,
                    grass_bottoms@,
                    4,
                );
            assert(self@ == old(self)@.generate_with(stone, dirt, grass));
            lemma_generated_floor_is_bedrock(old(self)@, stone, dirt, grass);
        }
    }
}

} // verus!
