//! Random picks of tile kinds, materials and cells.

use vstd::prelude::*;

use crate::rng::gen_range_inclusive;
use crate::tile::base::TileTexture;
use crate::tile::TileType;
use crate::TilePosition;

verus! {

/// The material that a draw from `0..=2` stands for: grass for 0, stone for
/// the rest.
pub open spec fn texture_of_draw(draw: usize) -> TileTexture {
    if draw == 0 {
        TileTexture::Grass
    } else {
        TileTexture::Stone
    }
}

/// The tile kind that a draw from `0..=2` stands for: terrain for 0, empty
/// for the rest.
pub open spec fn tile_type_of_draw(draw: usize) -> TileType {
    if draw == 0 {
        TileType::Base
    } else {
        TileType::Empty
    }
}

/// The material for a draw.
pub fn tile_texture_for(draw: usize) -> (texture: TileTexture)
    ensures
        texture == texture_of_draw(draw),
{
    match draw {
        0 => TileTexture::Grass,
        _ => TileTexture::Stone,
    }
}

/// The tile kind for a draw.
pub fn tile_type_for(draw: usize) -> (tile_type: TileType)
    ensures
        tile_type == tile_type_of_draw(draw),
{
    match draw {
        0 => TileType::Base,
        _ => TileType::Empty,
    }
}

/// Grass one time in three, stone otherwise.
pub fn get_random_tile_texture() -> (texture: TileTexture)
    ensures
        exists|draw: usize| draw <= 2 && texture == #[trigger] texture_of_draw(draw),
        texture == TileTexture::Grass || texture == TileTexture::Stone,
{
    let mut rng = rand::thread_rng();
    tile_texture_for(gen_range_inclusive(&mut rng, 0, 2))
}

/// Terrain one time in three, empty otherwise.
pub fn get_random_tile_type() -> (tile_type: TileType)
    ensures
        exists|draw: usize| draw <= 2 && tile_type == #[trigger] tile_type_of_draw(draw),
        tile_type == TileType::Base || tile_type == TileType::Empty,
{
    let mut rng = rand::thread_rng();
    tile_type_for(gen_range_inclusive(&mut rng, 0, 2))
}

/// A cell of a square grid with side `dim`, which must not be zero.
pub fn get_random_coordinate(dim: usize) -> (pos: TilePosition)
    requires
        dim > 0,
    ensures
        pos.0 < dim,
        pos.1 < dim,
{
    let mut rng = rand::thread_rng();
    let x = gen_range_inclusive(&mut rng, 0, dim - 1);
    let y = gen_range_inclusive(&mut rng, 0, dim - 1);
    TilePosition(x, y)
}

} // verus!
