use vstd::prelude::*;

use core::cmp::Ordering;

use crate::tile::{Tile, TileType};

verus! {

/// Terrain materials, from the hardest to the lightest. Generation lays them
/// down in this order, bottom up.
#[derive(Clone, Copy, Debug, PartialEq, Eq, Structural)]
pub enum TileTexture {
    Bedrock,
    Stone,
    Dirt,
    Grass,
}

/// The materials in layering order.
pub const TILE_LAYERS: [TileTexture; 4] = [
    TileTexture::Bedrock,
    TileTexture::Stone,
    TileTexture::Dirt,
    TileTexture::Grass,
];

/// A colour as four 8-bit channels: alpha, red, green, blue, not
/// premultiplied.
#[derive(Clone, Copy, Debug, PartialEq, Eq, Structural)]
pub struct Color {
    pub a: u8,
    pub r: u8,
    pub g: u8,
    pub b: u8,
}

impl TileTexture {
    /// Position of the material in the layering order: 0 for bedrock, 3 for grass.
    pub open spec fn rank(self) -> nat {
        match self {
            TileTexture::Bedrock => 0,
            TileTexture::Stone => 1,
            TileTexture::Dirt => 2,
            TileTexture::Grass => 3,
        }
    }

    /// The material's place in the layering order.
    pub fn layer(&self) -> (n: u8)
        ensures
            n == self.rank(),
    {
        match self {
            TileTexture::Bedrock => 0,
            TileTexture::Stone => 1,
            TileTexture::Dirt => 2,
            TileTexture::Grass => 3,
        }
    }

    /// The colour of each material.
    pub open spec fn color(self) -> Color {
        match self {
            TileTexture::Stone => Color { a: 255, r: 89, g: 89, b: 87 },
            TileTexture::Bedrock => Color { a: 255, r: 46, g: 46, b: 45 },
            TileTexture::Dirt => Color { a: 255, r: 138, g: 90, b: 32 },
            TileTexture::Grass => Color { a: 255, r: 12, g: 207, b: 67 },
        }
    }

    /// The colour this material is drawn in.
    pub fn get_color(&self) -> (c: Color)
        ensures
            c == self.color(),
    {
        match self {
            TileTexture::Stone => Color { a: 255, r: 89, g: 89, b: 87 },
            TileTexture::Bedrock => Color { a: 255, r: 46, g: 46, b: 45 },
            TileTexture::Dirt => Color { a: 255, r: 138, g: 90, b: 32 },
            TileTexture::Grass => Color { a: 255, r: 12, g: 207, b: 67 },
        }
    }
}

/// Materials compare by their place in the layering order:
/// bedrock < stone < dirt < grass.
impl PartialOrd for TileTexture {
    fn partial_cmp(&self, other: &TileTexture) -> (r: Option<Ordering>) {
        let mine = self.layer();
        let theirs = other.layer();
        if mine < theirs {
            Some(Ordering::Less)
        } else if mine == theirs {
            Some(Ordering::Equal)
        } else {
            Some(Ordering::Greater)
        }
    }
}

impl vstd::std_specs::cmp::PartialOrdSpecImpl for TileTexture {
    open spec fn obeys_partial_cmp_spec() -> bool {
        true
    }

    open spec fn partial_cmp_spec(&self, other: &TileTexture) -> Option<Ordering> {
        if self.rank() < other.rank() {
            Some(Ordering::Less)
        } else if self.rank() == other.rank() {
            Some(Ordering::Equal)
        } else {
            Some(Ordering::Greater)
        }
    }
}

/// A terrain tile of one material.
#[derive(Clone, Copy, Debug, PartialEq, Eq, Structural)]
pub struct BaseTile {
    pub texture: TileTexture,
}

impl BaseTile {
    /// The terrain tile of the given material.
    pub fn new(texture: TileTexture) -> (t: Tile)
        ensures
            t == Tile::Base(BaseTile { texture }),
    {
        Tile::Base(BaseTile { texture })
    }

    /// The material of this tile.
    pub fn get_texture(&self) -> (t: &TileTexture)
        ensures
            *t == self.texture,
    {
        &self.texture
    }

    /// Always `TileType::Base`.
    pub fn get_type(&self) -> (t: TileType)
        ensures
            t == TileType::Base,
    {
        TileType::Base
    }

    /// The per-tick hook: terrain does nothing.
    pub fn update(&mut self)
        ensures
            *final(self) == *old(self),
        no_unwind
    {
    }
}

} // verus!
