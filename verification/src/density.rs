//! The density field: which voxels are solid, and of what.
//!
//! Density at height `y` is the sampled base density less a gradient that
//! grows with the height above the column's surface. Both are scalars, so
//! their difference is kept here times `UNIT`: only its sign is ever read.

use vstd::prelude::*;
use crate::biome::{subsurface_material_of, surface_material_of, Biome};
use crate::column::ColumnStats;
use crate::material::{BlockMaterial, Voxel};
use crate::scalar::UNIT;

verus! {

/// Below this height, space that is not solid holds liquid.
pub const SEA_LEVEL: i32 = -10;

/// The one height at which a tundra's liquid is frozen.
pub const ICE_LEVEL: i32 = -11;

/// How far above a solid voxel the probe for the subsurface layer looks.
pub const SUBSURFACE_DEPTH: i64 = 5;

/// The gradient that height takes from density, times `UNIT`:
/// `(y - height_offset) * squash_factor`.
pub open spec fn height_gradient(y: int, height_offset: int, squash_factor: int) -> int {
    (y * UNIT - height_offset) * squash_factor
}

/// Density at height `y`, times `UNIT`: the base density less the gradient.
pub open spec fn final_density(base: int, y: int, height_offset: int, squash_factor: int) -> int {
    base * UNIT - height_gradient(y, height_offset, squash_factor)
}

/// A voxel is solid where density is positive.
pub open spec fn solid_at(base: int, y: int, stats: ColumnStats) -> bool {
    final_density(base, y, stats.height_offset as int, stats.squash_factor as int) > 0
}

/// The voxel that the terrain pass gives at height `y` of a column, before any cave
/// is carved: solid voxels take their material from how near the surface they
/// lie, the others are liquid below sea level and air above.
pub open spec fn terrain_of(y: int, stats: ColumnStats, base: int) -> Voxel {
    let biome = stats.biome_spec();
    if solid_at(base, y, stats) {
        if !solid_at(base, y + 1, stats) {
            Voxel::Solid(surface_material_of(biome))
        } else if !solid_at(base, y + SUBSURFACE_DEPTH, stats) {
            Voxel::Solid(subsurface_material_of(biome))
        } else {
            Voxel::Solid(BlockMaterial::Stone)
        }
    } else if y < SEA_LEVEL {
        if biome == Biome::Tundra && y == ICE_LEVEL {
            Voxel::Solid(BlockMaterial::Ice)
        } else {
            Voxel::Solid(BlockMaterial::Water)
        }
    } else {
        Voxel::Air
    }
}

/// With a squash factor that is not negative, density does not rise with
/// height: for one column and one base density, a higher voxel is no denser.
pub proof fn lemma_density_falls_with_height(
    base: int,
    low: int,
    high: int,
    height_offset: int,
    squash_factor: int,
)
    requires
        low <= high,
        squash_factor >= 0,
    ensures
        final_density(base, high, height_offset, squash_factor) <= final_density(
            base,
            low,
            height_offset,
            squash_factor,
        ),
{
    assert((low * UNIT - height_offset) * squash_factor <= (high * UNIT - height_offset)
        * squash_factor) by (nonlinear_arith)
        requires
            low * UNIT - height_offset <= high * UNIT - height_offset,
            squash_factor >= 0,
    ;
}

/// With a squash factor that is not negative, solid voxels lie below empty
/// ones: under a solid voxel of a column, at the same base density, all is
/// solid.
pub proof fn lemma_solid_below_solid(base: int, low: int, high: int, stats: ColumnStats)
    requires
        low <= high,
        stats.squash_factor >= 0,
        solid_at(base, high, stats),
    ensures
        solid_at(base, low, stats),
{
    lemma_density_falls_with_height(
        base,
        low,
        high,
        stats.height_offset as int,
        stats.squash_factor as int,
    );
}

/// Below sea level, space that is not solid holds liquid: ice in a tundra at
/// `ICE_LEVEL`, water everywhere else. At sea level and above it is air.
pub proof fn lemma_liquid_fill(y: int, stats: ColumnStats, base: int)
    requires
        !solid_at(base, y, stats),
    ensures
        y < SEA_LEVEL && stats.biome_spec() == Biome::Tundra && y == ICE_LEVEL ==> terrain_of(
            y,
            stats,
            base,
        ) == Voxel::Solid(BlockMaterial::Ice),
        y < SEA_LEVEL && !(stats.biome_spec() == Biome::Tundra && y == ICE_LEVEL) ==> terrain_of(
            y,
            stats,
            base,
        ) == Voxel::Solid(BlockMaterial::Water),
        y >= SEA_LEVEL ==> terrain_of(y, stats, base) == Voxel::Air,
{
}

/// Whether density is positive at height `y`, for heights a little beyond
/// what a voxel coordinate can hold, so that probes above a voxel fit.
fn solid_at_height(base: i64, y: i64, stats: &ColumnStats) -> (solid: bool)
    requires
        -0x1_0000_0000 <= y <= 0x1_0000_0000,
    ensures
        solid == solid_at(base as int, y as int, *stats),
{
    let scaled_base: i128 = (base as i128) * (UNIT as i128);
    let above: i128 = (y as i128) * (UNIT as i128) - (stats.height_offset as i128);
    let squash: i128 = stats.squash_factor as i128;
    assert(-0x7000_0000_0000_0000_0000_0000_0000_0000 <= above * squash
        <= 0x7000_0000_0000_0000_0000_0000_0000_0000) by (nonlinear_arith)
        requires
            -0xc000_0000_0000_0000 <= above <= 0xc000_0000_0000_0000,
            -0x8000_0000_0000_0000 <= squash <= 0x8000_0000_0000_0000,
    ;
    let gradient: i128 = above * squash;
    scaled_base > gradient
}

/// Whether the voxel at height `y` of a column is solid, given the base
/// density sampled there.
pub fn is_solid(y: i32, stats: &ColumnStats, base_density: i64) -> (solid: bool)
    ensures
        solid == solid_at(base_density as int, y as int, *stats),
{
    solid_at_height(base_density, y as i64, stats)
}

/// The terrain pass: the voxel at height `y` of a column, given the base
/// density sampled there, before any cave is carved.
pub fn terrain_voxel(y: i32, stats: &ColumnStats, base_density: i64) -> (voxel: Voxel)
    ensures
        voxel == terrain_of(y as int, *stats, base_density as int),
{
    let height: i64 = y as i64;
    if solid_at_height(base_density, height, stats) {
        if !solid_at_height(base_density, height + 1, stats) {
            Voxel::Solid(stats.biome().surface_material())
        } else if !solid_at_height(base_density, height + SUBSURFACE_DEPTH, stats) {
            Voxel::Solid(stats.biome().subsurface_material())
        } else {
            Voxel::Solid(BlockMaterial::Stone)
        }
    } else if y < SEA_LEVEL {
        match stats.biome() {
            Biome::Tundra => {
                if y == ICE_LEVEL {
                    Voxel::Solid(BlockMaterial::Ice)
                } else {
                    Voxel::Solid(BlockMaterial::Water)
                }
            },
            _ => Voxel::Solid(BlockMaterial::Water),
        }
    } else {
        Voxel::Air
    }
}

} // verus!
