//! Materials, voxels and the texture atlas.

use vstd::prelude::*;

verus! {

/// A substance a solid voxel can be made of.
#[derive(Debug, Clone, Copy, Hash, PartialEq, Eq, Structural)]
pub enum BlockMaterial {
    Grass,
    Dirt,
    Stone,
    Water,
    Marble,
    Sand,
    Snow,
    Ice,
    Wood,
    Leaves,
    Clay,
    Iron,
    Gold,
    Coal,
    Copper,
    Tin,
    Silver,
    Platinum,
    Lava,
    Adamantine,
}

/// What one unit cube of the world holds.
#[derive(Debug, Clone, Copy, Hash, PartialEq, Eq, Structural)]
pub enum Voxel {
    /// No data: outside what this request generates.
    Unset,
    /// Empty space.
    Air,
    /// Filled with a material.
    Solid(BlockMaterial),
}

/// Number of tiles in the texture atlas.
pub const ATLAS_TILES: u32 = 21;

/// The atlas tile drawn on the four sides of a block.
pub open spec fn side_tile(mat: BlockMaterial) -> u32 {
    match mat {
        BlockMaterial::Grass => 1,
        BlockMaterial::Dirt => 2,
        BlockMaterial::Stone => 3,
        BlockMaterial::Water => 4,
        BlockMaterial::Marble => 5,
        BlockMaterial::Sand => 6,
        BlockMaterial::Snow => 7,
        BlockMaterial::Ice => 8,
        BlockMaterial::Wood => 9,
        BlockMaterial::Leaves => 10,
        BlockMaterial::Clay => 11,
        BlockMaterial::Iron => 12,
        BlockMaterial::Gold => 13,
        BlockMaterial::Coal => 14,
        BlockMaterial::Copper => 15,
        BlockMaterial::Tin => 16,
        BlockMaterial::Silver => 17,
        BlockMaterial::Platinum => 18,
        BlockMaterial::Lava => 19,
        BlockMaterial::Adamantine => 20,
    }
}

/// The atlas tile drawn on top of a block: grass has a face of its own,
/// every other material shows its side tile.
pub open spec fn top_tile(mat: BlockMaterial) -> u32 {
    if mat == BlockMaterial::Grass {
        0
    } else {
        side_tile(mat)
    }
}

/// The atlas tile drawn underneath a block: grass shows dirt, every other
/// material its side tile.
pub open spec fn bottom_tile(mat: BlockMaterial) -> u32 {
    if mat == BlockMaterial::Grass {
        side_tile(BlockMaterial::Dirt)
    } else {
        side_tile(mat)
    }
}

impl Default for BlockMaterial {
    /// Stone, what the inside of the world is made of.
    fn default() -> (mat: BlockMaterial)
        ensures
            mat == BlockMaterial::Stone,
    {
        BlockMaterial::Stone
    }
}

impl BlockMaterial {
    /// The atlas tiles of a material, as top, side and bottom.
    pub fn get_texture_index_map(mat: BlockMaterial) -> (tiles: [u32; 3])
        ensures
            tiles[0] == top_tile(mat),
            tiles[1] == side_tile(mat),
            tiles[2] == bottom_tile(mat),
            forall|i: int| 0 <= i < 3 ==> tiles[i] < ATLAS_TILES,
    {
        match mat {
            BlockMaterial::Grass => [0, 1, 2],
            BlockMaterial::Dirt => [2, 2, 2],
            BlockMaterial::Stone => [3, 3, 3],
            BlockMaterial::Water => [4, 4, 4],
            BlockMaterial::Marble => [5, 5, 5],
            BlockMaterial::Sand => [6, 6, 6],
            BlockMaterial::Snow => [7, 7, 7],
            BlockMaterial::Ice => [8, 8, 8],
            BlockMaterial::Wood => [9, 9, 9],
            BlockMaterial::Leaves => [10, 10, 10],
            BlockMaterial::Clay => [11, 11, 11],
            BlockMaterial::Iron => [12, 12, 12],
            BlockMaterial::Gold => [13, 13, 13],
            BlockMaterial::Coal => [14, 14, 14],
            BlockMaterial::Copper => [15, 15, 15],
            BlockMaterial::Tin => [16, 16, 16],
            BlockMaterial::Silver => [17, 17, 17],
            BlockMaterial::Platinum => [18, 18, 18],
            BlockMaterial::Lava => [19, 19, 19],
            BlockMaterial::Adamantine => [20, 20, 20],
        }
    }
}

} // verus!
