//! The generator of one request: a chunk at a level of detail.
//!
//! A generator makes no sample itself: it says which sample it needs next.
//! `start` opens the work on a position and each function named after a
//! sample takes that sample and gives the next [`Step`], until one is
//! `Step::Done`. A column is sampled only when the cache does not hold it,
//! and the cave noise only where the terrain pass left something to carve.
//! `sample` is the same decision in one call, for a caller that has every
//! sample at hand.

use vstd::prelude::*;
use crate::cave::{carvable, carvable_spec, carve, carved, CaveSamples};
use crate::chunk::{Coordinate, CHUNK_SIZE};
use crate::column::{ColumnCache, ColumnStats};
use crate::density::{terrain_of, terrain_voxel};
use crate::material::{BlockMaterial, Voxel};

verus! {

/// Below this height everything is lava: the floor of the world.
pub const WORLD_FLOOR: i32 = -255;

/// Above this height nothing is generated.
pub const WORLD_CEILING: i32 = 255;

/// The one stride at which voxels around the chunk are left unset.
pub const SKIRT_STRIDE: u8 = 2;

/// Whether `v` lies in the chunk with index `chunk` along one axis.
pub open spec fn axis_within(chunk: int, v: int) -> bool {
    chunk * CHUNK_SIZE <= v < chunk * CHUNK_SIZE + CHUNK_SIZE
}

/// Whether `position` is one of the voxels of `chunk`.
pub open spec fn chunk_contains(chunk: Coordinate, position: Coordinate) -> bool {
    &&& axis_within(chunk.x as int, position.x as int)
    &&& axis_within(chunk.y as int, position.y as int)
    &&& axis_within(chunk.z as int, position.z as int)
}

/// The voxel at height `y` of a column, from the samples taken there: the
/// terrain pass, then the cave pass.
pub open spec fn generated(y: int, stats: ColumnStats, base_density: int, caves: CaveSamples)
    -> Voxel {
    carved(terrain_of(y, stats, base_density), y, stats, caves)
}

/// Where the work on one position stands: what is to be sampled next, or the
/// voxel.
#[derive(Debug, Clone, Copy, PartialEq, Eq, Structural)]
pub enum Step {
    /// The voxel is decided.
    Done(Voxel),
    /// The column is not cached: its stats are wanted.
    NeedColumn,
    /// The base density at the position is wanted.
    NeedDensity { stats: ColumnStats },
    /// The terrain pass gave `terrain`, which may yet be carved: the cave
    /// samples at the position are wanted.
    NeedCaves { stats: ColumnStats, terrain: Voxel },
}

/// The generator of one chunk at one level of detail.
pub struct VoxelGenerator {
    /// The chunk that was asked for.
    pub chunk: Coordinate,
    /// Whether positions outside the chunk are left unset.
    pub skirt_enabled: bool,
    /// The columns sampled so far for this request.
    pub cache: ColumnCache,
}

fn axis_inside(chunk: i32, v: i32) -> (inside: bool)
    ensures
        inside == axis_within(chunk as int, v as int),
{
    let side: i64 = CHUNK_SIZE as i64;
    assert(side == 32);
    let low: i64 = (chunk as i64) * side;
    let at: i64 = v as i64;
    low <= at && at < low + side
}

/// The two passes in one call: the voxel at height `y` of a column, from the
/// samples taken there.
pub fn generate(y: i32, stats: &ColumnStats, base_density: i64, caves: &CaveSamples) -> (voxel:
    Voxel)
    ensures
        voxel == generated(y as int, *stats, base_density as int, *caves),
{
    carve(terrain_voxel(y, stats, base_density), y, stats, caves)
}

/// The step after the base density at height `y` was sampled: the terrain
/// pass decides the voxel unless it may yet be carved. A voxel that is done
/// here is the one that both passes give, whatever the cave samples.
pub fn density_sampled(y: i32, stats: ColumnStats, base_density: i64) -> (step: Step)
    ensures
        step == (if carvable_spec(terrain_of(y as int, stats, base_density as int), y as int) {
            Step::NeedCaves { stats, terrain: terrain_of(y as int, stats, base_density as int) }
        } else {
            Step::Done(terrain_of(y as int, stats, base_density as int))
        }),
        forall|caves: CaveSamples|
            step is Done ==> step == Step::Done(
                #[trigger] generated(y as int, stats, base_density as int, caves),
            ),
{
    let terrain = terrain_voxel(y, &stats, base_density);
    if carvable(terrain, y) {
        Step::NeedCaves { stats, terrain }
    } else {
        Step::Done(terrain)
    }
}

/// The last step, after the cave noise at height `y` was sampled: the voxel
/// that the cave pass leaves of `terrain`.
pub fn caves_sampled(y: i32, stats: ColumnStats, terrain: Voxel, caves: CaveSamples) -> (step:
    Step)
    ensures
        step == Step::Done(carved(terrain, y as int, stats, caves)),
{
    Step::Done(carve(terrain, y, &stats, &caves))
}

impl VoxelGenerator {
    /// Whether `position` lies in the skirt: outside the chunk, at the stride
    /// that leaves such voxels unset.
    pub open spec fn in_skirt(&self, position: Coordinate) -> bool {
        self.skirt_enabled && !chunk_contains(self.chunk, position)
    }

    /// The voxel at `position` where no sample decides it: lava under the
    /// floor, unset in the skirt, air over the ceiling.
    pub open spec fn fixed_voxel_spec(&self, position: Coordinate) -> Option<Voxel> {
        if position.y < WORLD_FLOOR {
            Some(Voxel::Solid(BlockMaterial::Lava))
        } else if self.in_skirt(position) {
            Some(Voxel::Unset)
        } else if position.y > WORLD_CEILING {
            Some(Voxel::Air)
        } else {
            None
        }
    }

    /// The voxel at `position`, given the samples taken there.
    pub open spec fn voxel_spec(
        &self,
        position: Coordinate,
        stats: ColumnStats,
        base_density: int,
        caves: CaveSamples,
    ) -> Voxel {
        match self.fixed_voxel_spec(position) {
            Some(voxel) => voxel,
            None => generated(position.y as int, stats, base_density, caves),
        }
    }

    /// A generator for `chunk` at stride `lod`, with nothing cached.
    pub fn new(chunk: Coordinate, lod: u8) -> (generator: VoxelGenerator)
        ensures
            generator.chunk == chunk,
            generator.skirt_enabled == (lod == SKIRT_STRIDE),
            generator.cache@ == Map::<(i32, i32), ColumnStats>::empty(),
    {
        VoxelGenerator { chunk, skirt_enabled: lod == SKIRT_STRIDE, cache: ColumnCache::new() }
    }

    /// Whether `position` is one of the voxels of this generator's chunk.
    pub fn contains(&self, position: Coordinate) -> (inside: bool)
        ensures
            inside == chunk_contains(self.chunk, position),
    {
        axis_inside(self.chunk.x, position.x) && axis_inside(self.chunk.y, position.y)
            && axis_inside(self.chunk.z, position.z)
    }

    /// The voxel at `position` if it is settled without sampling, else
    /// nothing.
    pub fn fixed_voxel(&self, position: Coordinate) -> (fixed: Option<Voxel>)
        ensures
            fixed == self.fixed_voxel_spec(position),
    {
        if position.y < WORLD_FLOOR {
            Some(Voxel::Solid(BlockMaterial::Lava))
        } else if self.skirt_enabled && !self.contains(position) {
            Some(Voxel::Unset)
        } else if position.y > WORLD_CEILING {
            Some(Voxel::Air)
        } else {
            None
        }
    }

    /// The stats cached for column `(x, z)`, if this request has stored them.
    pub fn cached_column(&self, x: i32, z: i32) -> (found: Option<ColumnStats>)
        ensures
            found == (if self.cache@.contains_key((x, z)) {
                Some(self.cache@[(x, z)])
            } else {
                None
            }),
    {
        self.cache.get(x, z)
    }

    /// Stores the stats of column `(x, z)` for the rest of this request.
    /// Nothing else changes.
    pub fn remember_column(&mut self, x: i32, z: i32, stats: ColumnStats)
        ensures
            final(self).cache@ == old(self).cache@.insert((x, z), stats),
            final(self).chunk == old(self).chunk,
            final(self).skirt_enabled == old(self).skirt_enabled,
    {
        self.cache.insert(x, z, stats);
    }

    /// The first step for `position`: its voxel where no sample decides it,
    /// else the density where the column is cached, else the column.
    pub fn start(&self, position: Coordinate) -> (step: Step)
        ensures
            step == (match self.fixed_voxel_spec(position) {
                Some(voxel) => Step::Done(voxel),
                None => if self.cache@.contains_key((position.x, position.z)) {
                    Step::NeedDensity { stats: self.cache@[(position.x, position.z)] }
                } else {
                    Step::NeedColumn
                },
            }),
    {
        match self.fixed_voxel(position) {
            Some(voxel) => Step::Done(voxel),
            None => match self.cache.get(position.x, position.z) {
                Some(stats) => Step::NeedDensity { stats },
                None => Step::NeedColumn,
            },
        }
    }

    /// The step after the column of `position` was sampled: the stats are
    /// cached for the positions to come, and the density is wanted.
    pub fn column_sampled(&mut self, position: Coordinate, stats: ColumnStats) -> (step: Step)
        ensures
            step == (Step::NeedDensity { stats }),
            final(self).cache@ == old(self).cache@.insert((position.x, position.z), stats),
            final(self).chunk == old(self).chunk,
            final(self).skirt_enabled == old(self).skirt_enabled,
    {
        self.cache.insert(position.x, position.z, stats);
        Step::NeedDensity { stats }
    }

    /// The voxel at `position`, given the samples taken there.
    pub fn sample(
        &self,
        position: Coordinate,
        stats: &ColumnStats,
        base_density: i64,
        caves: &CaveSamples,
    ) -> (voxel: Voxel)
        ensures
            voxel == self.voxel_spec(position, *stats, base_density as int, *caves),
    {
        match self.fixed_voxel(position) {
            Some(voxel) => voxel,
            None => generate(position.y, stats, base_density, caves),
        }
    }
}

/// A voxel does not depend on the request that asks for it. Two generators,
/// whatever their chunks, strides and caches, give the same voxel at a
/// position from the same samples, unless one of them has it in its skirt.
pub proof fn lemma_voxel_ignores_context(
    one: VoxelGenerator,
    other: VoxelGenerator,
    position: Coordinate,
    stats: ColumnStats,
    base_density: int,
    caves: CaveSamples,
)
    requires
        !one.in_skirt(position),
        !other.in_skirt(position),
    ensures
        one.voxel_spec(position, stats, base_density, caves) == other.voxel_spec(
            position,
            stats,
            base_density,
            caves,
        ),
{
}

/// Going step by step gives the voxel that `sample` gives. Where the steps
/// ask for the cave samples, the last step is that voxel; where they end
/// without, the voxel does not depend on them.
pub proof fn lemma_steps_reach_the_voxel(
    generator: VoxelGenerator,
    position: Coordinate,
    stats: ColumnStats,
    base_density: int,
    caves: CaveSamples,
)
    requires
        generator.fixed_voxel_spec(position) is None,
    ensures
        ({
            let terrain = terrain_of(position.y as int, stats, base_density);
            let voxel = generator.voxel_spec(position, stats, base_density, caves);
            if carvable_spec(terrain, position.y as int) {
                voxel == carved(terrain, position.y as int, stats, caves)
            } else {
                voxel == terrain
            }
        }),
{
}

/// The world has a floor and a ceiling. Under the floor every voxel is lava,
/// whatever was sampled and whatever the request; over the ceiling every
/// voxel outside a skirt is air.
pub proof fn lemma_hard_bounds(
    generator: VoxelGenerator,
    position: Coordinate,
    stats: ColumnStats,
    base_density: int,
    caves: CaveSamples,
)
    ensures
        position.y < WORLD_FLOOR ==> generator.voxel_spec(position, stats, base_density, caves)
            == Voxel::Solid(BlockMaterial::Lava),
        position.y > WORLD_CEILING && !generator.in_skirt(position) ==> generator.voxel_spec(
            position,
            stats,
            base_density,
            caves,
        ) == Voxel::Air,
{
}

} // verus!
