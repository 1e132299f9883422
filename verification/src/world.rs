//! The world's configuration: what every noise field is built from, and the
//! knots that remap noise to height.

use vstd::prelude::*;
use crate::chunk::{chunk_holding, distance_squared, lod_for, stride_for, Coordinate};
use crate::column::ColumnStats;
use crate::generator::{VoxelGenerator, SKIRT_STRIDE};

verus! {

/// What scales are counted in: a scale of `SCALE_UNIT` leaves a coordinate as
/// it is.
pub const SCALE_UNIT: i64 = 1_000_000_000_000;

/// Scale of voxel coordinates for the continent noise.
pub const CONTINENT_SCALE: i64 = 250_000_000;

/// Scale of voxel coordinates for the erosion noise.
pub const EROSION_SCALE: i64 = 2_500_000_000;

/// Scale of voxel coordinates for the peaks-and-valleys noise.
pub const PEAKS_VALLEYS_SCALE: i64 = 10_000_000_000;

/// Scale of voxel coordinates for the temperature and humidity noises.
pub const CLIMATE_SCALE: i64 = 666_700_000;

/// Scale of voxel coordinates for the weirdness noise.
pub const WEIRDNESS_SCALE: i64 = 330_000_000;

/// Scale of voxel coordinates for the base density noise.
pub const DENSITY_SCALE: i64 = 10_000_000_000;

/// Scale of voxel coordinates for the cave density and cave warp noises.
pub const CAVE_SCALE: i64 = 30_303_030_303;

/// Scale of voxel coordinates for the two tunnel noises.
pub const TUNNEL_SCALE: i64 = 2_500_000_000;

/// How far from the camera chunks are spawned, in chunks.
pub const SPAWNING_DISTANCE: u32 = 64;

/// Chunks nearer than this to the camera are never despawned.
pub const MIN_DESPAWN_DISTANCE: u32 = 1;

/// Continent noise to height.
pub const CONTINENT_KNOTS: [(i64, i64); 17] = [
    (-1_000_000_000, -128_000_000_000),
    (-960_000_000, -96_000_000_000),
    (-910_000_000, -80_000_000_000),
    (-800_000_000, -64_000_000_000),
    (-700_000_000, -60_000_000_000),
    (-500_000_000, -50_000_000_000),
    (-400_000_000, -40_000_000_000),
    (-300_000_000, -36_000_000_000),
    (-200_000_000, -30_000_000_000),
    (-100_000_000, -26_000_000_000),
    (0, -20_000_000_000),
    (100_000_000, -16_000_000_000),
    (200_000_000, 10_000_000_000),
    (700_000_000, 10_000_000_000),
    (800_000_000, 64_000_000_000),
    (900_000_000, 80_000_000_000),
    (1_000_000_000, 96_000_000_000),
];

/// Erosion noise to height.
pub const EROSION_KNOTS: [(i64, i64); 4] = [
    (-1_000_000_000, 48_000_000_000),
    (0, 36_000_000_000),
    (667_000_000, 6_000_000_000),
    (1_000_000_000, -48_010_000_000),
];

/// Peaks-and-valleys noise to height.
pub const PEAKS_VALLEYS_KNOTS: [(i64, i64); 3] = [
    (-1_000_000_000, 0),
    (0, 10_000_000_000),
    (1_000_000_000, 20_000_000_000),
];

/// Peaks-and-valleys noise to squash factor.
pub const SQUASH_KNOTS: [(i64, i64); 3] = [
    (-1_000_000_000, 1_000_000_000),
    (0, 400_000_000),
    (1_000_000_000, 30_000_000),
];

/// The parameters of one fractal noise field. Frequency, lacunarity and
/// persistence are scalars; a lacunarity or persistence that is absent
/// leaves the noise source's own.
#[derive(Debug, Clone, Copy, PartialEq, Eq, Structural)]
pub struct NoiseChannel {
    pub seed: u32,
    pub octaves: usize,
    pub frequency: i64,
    pub lacunarity: Option<i64>,
    pub persistence: Option<i64>,
}

/// Whether the inputs of `knots` rise from each knot to the next.
pub open spec fn knots_ordered(knots: Seq<(i64, i64)>) -> bool {
    forall|i: int, j: int| 0 <= i < j < knots.len() ==> knots[i].0 < knots[j].0
}

/// A piecewise-linear remap, as its knots: pairs of input and output, both
/// scalars.
#[derive(Debug, Clone)]
pub struct SplineRemap {
    pub knots: Vec<(i64, i64)>,
}

impl View for SplineRemap {
    type V = Seq<(i64, i64)>;

    open spec fn view(&self) -> Seq<(i64, i64)> {
        self.knots@
    }
}

impl SplineRemap {
    /// A remap has a knot, and its knots are in the order of their inputs.
    pub open spec fn well_formed(&self) -> bool {
        self@.len() > 0 && knots_ordered(self@)
    }

    /// The remap whose knots are those of `table`, in its order.
    pub fn from_knots(table: &[(i64, i64)]) -> (remap: SplineRemap)
        ensures
            remap@ == table@,
    {
        let mut knots: Vec<(i64, i64)> = Vec::new();
        let mut i: usize = 0;
        while i < table.len()
            invariant
                i <= table.len(),
                knots@ == table@.subrange(0, i as int),
            decreases table.len() - i,
        {
            knots.push(table[i]);
            proof {
                assert(knots@ =~= table@.subrange(0, i + 1));
            }
            i += 1;
        }
        proof {
            assert(knots@ =~= table@);
        }
        SplineRemap { knots }
    }
}

/// Everything the world's noise is built from. It is made once and only read
/// afterwards.
#[derive(Debug, Clone)]
pub struct TerrainWorld {
    pub continents: NoiseChannel,
    pub continent_spline: SplineRemap,
    pub erosion: NoiseChannel,
    pub erosion_spline: SplineRemap,
    pub peaks_valleys: NoiseChannel,
    pub peaks_valleys_spline: SplineRemap,
    pub squashing_spline: SplineRemap,
    pub temperatures: NoiseChannel,
    pub humidity: NoiseChannel,
    pub weirdness: NoiseChannel,
    /// Seed of the base density noise.
    pub density_a: u32,
    /// Seed of the cave density noise.
    pub density_b: u32,
    /// Seed of the cave warp noise.
    pub density_c: u32,
    /// Seeds of the two tunnel noises.
    pub spaghetti_a: u32,
    pub spaghetti_b: u32,
}

impl TerrainWorld {
    /// Every remap is well formed and every channel has an octave.
    pub open spec fn well_formed(&self) -> bool {
        &&& self.continent_spline.well_formed()
        &&& self.erosion_spline.well_formed()
        &&& self.peaks_valleys_spline.well_formed()
        &&& self.squashing_spline.well_formed()
        &&& self.continents.octaves >= 1
        &&& self.erosion.octaves >= 1
        &&& self.peaks_valleys.octaves >= 1
        &&& self.temperatures.octaves >= 1
        &&& self.humidity.octaves >= 1
        &&& self.weirdness.octaves >= 1
    }

    /// The world this crate ships.
    pub open spec fn standard(&self) -> bool {
        &&& self.continents == (NoiseChannel {
            seed: 1234,
            octaves: 5,
            frequency: 1_100_000_000,
            lacunarity: Some(2_800_000_000i64),
            persistence: Some(400_000_000i64),
        })
        &&& self.continent_spline@ == CONTINENT_KNOTS@
        &&& self.erosion == (NoiseChannel {
            seed: 5678,
            octaves: 3,
            frequency: 500_000_000,
            lacunarity: Some(2_000_000_000i64),
            persistence: Some(300_000_000i64),
        })
        &&& self.erosion_spline@ == EROSION_KNOTS@
        &&& self.peaks_valleys == (NoiseChannel {
            seed: 7890,
            octaves: 4,
            frequency: 300_000_000,
            lacunarity: Some(2_000_000_000i64),
            persistence: Some(500_000_000i64),
        })
        &&& self.peaks_valleys_spline@ == PEAKS_VALLEYS_KNOTS@
        &&& self.squashing_spline@ == SQUASH_KNOTS@
        &&& self.temperatures == (NoiseChannel {
            seed: 2233,
            octaves: 1,
            frequency: 200_000_000,
            lacunarity: None,
            persistence: None,
        })
        &&& self.humidity == (NoiseChannel {
            seed: 4455,
            octaves: 2,
            frequency: 300_000_000,
            lacunarity: None,
            persistence: None,
        })
        &&& self.weirdness == (NoiseChannel {
            seed: 6677,
            octaves: 3,
            frequency: 800_000_000,
            lacunarity: None,
            persistence: None,
        })
        &&& self.density_a == 9876
        &&& self.density_b == 5432
        &&& self.density_c == 1111
        &&& self.spaghetti_a == 31337
        &&& self.spaghetti_b == 73313
    }

    /// How far from the camera chunks are spawned, in chunks.
    pub fn spawning_distance(&self) -> (distance: u32)
        ensures
            distance == SPAWNING_DISTANCE,
    {
        SPAWNING_DISTANCE
    }

    /// Chunks nearer than this to the camera are never despawned.
    pub fn min_despawn_distance(&self) -> (distance: u32)
        ensures
            distance == MIN_DESPAWN_DISTANCE,
    {
        MIN_DESPAWN_DISTANCE
    }

    /// Chunks stand on their own, not under a common root.
    pub fn attach_chunks_to_root(&self) -> (attach: bool)
        ensures
            !attach,
    {
        false
    }

    /// The generator for one chunk at one level of detail: it starts with an
    /// empty cache and leaves a skirt unset at stride `SKIRT_STRIDE` only.
    pub fn voxel_lookup_delegate(&self, chunk_pos: Coordinate, lod_level: u8) -> (generator:
        VoxelGenerator)
        ensures
            generator.chunk == chunk_pos,
            generator.skirt_enabled == (lod_level == SKIRT_STRIDE),
            generator.cache@ == Map::<(i32, i32), ColumnStats>::empty(),
    {
        VoxelGenerator::new(chunk_pos, lod_level)
    }

    /// The level of detail of a chunk, by its distance from the chunk that
    /// holds the camera; `camera_position` is the voxel the camera is in.
    pub fn chunk_lod(&self, chunk_position: Coordinate, camera_position: Coordinate) -> (stride: u8)
        ensures
            stride == stride_for(distance_squared(chunk_position, chunk_holding(camera_position))),
    {
        lod_for(chunk_position, camera_position)
    }
}

impl Default for TerrainWorld {
    fn default() -> (world: TerrainWorld)
        ensures
            world.standard(),
            world.well_formed(),
    {
        let world = TerrainWorld {
            continents: NoiseChannel {
                seed: 1234,
                octaves: 5,
                frequency: 1_100_000_000,
                lacunarity: Some(2_800_000_000),
                persistence: Some(400_000_000),
            },
            continent_spline: SplineRemap::from_knots(&CONTINENT_KNOTS),
            erosion: NoiseChannel {
                seed: 5678,
                octaves: 3,
                frequency: 500_000_000,
                lacunarity: Some(2_000_000_000),
                persistence: Some(300_000_000),
            },
            erosion_spline: SplineRemap::from_knots(&EROSION_KNOTS),
            peaks_valleys: NoiseChannel {
                seed: 7890,
                octaves: 4,
                frequency: 300_000_000,
                lacunarity: Some(2_000_000_000),
                persistence: Some(500_000_000),
            },
            peaks_valleys_spline: SplineRemap::from_knots(&PEAKS_VALLEYS_KNOTS),
            squashing_spline: SplineRemap::from_knots(&SQUASH_KNOTS),
            temperatures: NoiseChannel {
                seed: 2233,
                octaves: 1,
                frequency: 200_000_000,
                lacunarity: None,
                persistence: None,
            },
            humidity: NoiseChannel {
                seed: 4455,
                octaves: 2,
                frequency: 300_000_000,
                lacunarity: None,
                persistence: None,
            },
            weirdness: NoiseChannel {
                seed: 6677,
                octaves: 3,
                frequency: 800_000_000,
                lacunarity: None,
                persistence: None,
            },
            density_a: 9876,
            density_b: 5432,
            density_c: 1111,
            spaghetti_a: 31337,
            spaghetti_b: 73313,
        };
        world
    }
}

} // verus!
