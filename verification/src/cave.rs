//! Cave carving: three tests on sampled noise, and the ore that fills a
//! cheese cave.

use vstd::prelude::*;
use crate::column::ColumnStats;
use crate::density::SEA_LEVEL;
use crate::material::{BlockMaterial, Voxel};
use crate::scalar::{abs_wide, magnitude, UNIT};

verus! {

/// A cheese cave opens where the cave density is above this.
pub const CHEESE_THRESHOLD: i64 = 981_300_000;

/// A meatball cave opens where warp plus tunnel noise is below this.
pub const MEATBALL_THRESHOLD: i64 = -494_321_000;

/// A spaghetti tunnel runs where both tunnel noises are nearer to zero than
/// this.
pub const SPAGHETTI_THRESHOLD: i64 = 7_654_321;

/// The outer edge of the ore table's bands.
pub const WIDE_BAND: i64 = 500_000_000;

/// The inner edge of the ore table's bands.
pub const NARROW_BAND: i64 = 100_000_000;

/// The four noise samples that carving reads at a position.
#[derive(Debug, Clone, Copy, PartialEq, Eq, Structural)]
pub struct CaveSamples {
    pub cave_density: i64,
    pub cave_warp: i64,
    pub spaghetti_a: i64,
    pub spaghetti_b: i64,
}

impl CaveSamples {
    pub open spec fn cheese_spec(self) -> bool {
        self.cave_density > CHEESE_THRESHOLD
    }

    pub open spec fn meatball_spec(self) -> bool {
        &&& self.cave_warp + magnitude(self.spaghetti_a as int) < MEATBALL_THRESHOLD
        &&& self.cave_warp + magnitude(self.spaghetti_b as int) < MEATBALL_THRESHOLD
    }

    pub open spec fn spaghetti_spec(self) -> bool {
        &&& magnitude(self.spaghetti_a as int) < SPAGHETTI_THRESHOLD
        &&& magnitude(self.spaghetti_b as int) < SPAGHETTI_THRESHOLD
    }

    /// Whether any of the three tests asks for a cave here.
    pub open spec fn any_spec(self) -> bool {
        self.cheese_spec() || self.meatball_spec() || self.spaghetti_spec()
    }

    /// Whether the cheese test holds: a large, rare cavity.
    pub fn cheese(&self) -> (carve: bool)
        ensures
            carve == self.cheese_spec(),
    {
        self.cave_density > CHEESE_THRESHOLD
    }

    /// Whether the meatball test holds: a blob where the warp is strongly
    /// negative and both tunnel noises are small.
    pub fn meatball(&self) -> (carve: bool)
        ensures
            carve == self.meatball_spec(),
    {
        let warp: i128 = self.cave_warp as i128;
        let limit: i128 = MEATBALL_THRESHOLD as i128;
        warp + abs_wide(self.spaghetti_a) < limit && warp + abs_wide(self.spaghetti_b) < limit
    }

    /// Whether the spaghetti test holds: a thin tunnel along the line where
    /// both tunnel noises cross zero.
    pub fn spaghetti(&self) -> (carve: bool)
        ensures
            carve == self.spaghetti_spec(),
    {
        let limit: i128 = SPAGHETTI_THRESHOLD as i128;
        abs_wide(self.spaghetti_a) < limit && abs_wide(self.spaghetti_b) < limit
    }
}

/// The band of the ore table that a scalar falls in: 0 below `-WIDE_BAND`,
/// then 1, 2 and 3 up to `-NARROW_BAND`, `NARROW_BAND` and `WIDE_BAND`, and 4
/// from there on.
pub open spec fn band(v: int) -> int {
    if v < -WIDE_BAND {
        0
    } else if v < -NARROW_BAND {
        1
    } else if v < NARROW_BAND {
        2
    } else if v < WIDE_BAND {
        3
    } else {
        4
    }
}

/// What fills a cheese cave, by the bands of temperature, humidity and
/// weirdness. Cold columns go by humidity alone; mild ones by humidity and
/// weirdness, where all but the driest read the three middle bands of
/// weirdness as one; hot columns, and the top band of either scale, are left
/// empty.
pub open spec fn ore_of(temperature: int, humidity: int, weirdness: int) -> Voxel {
    let t = band(temperature);
    let h = band(humidity);
    let w = band(weirdness);
    if t == 0 {
        if h == 0 {
            Voxel::Solid(BlockMaterial::Copper)
        } else if h == 1 {
            Voxel::Solid(BlockMaterial::Adamantine)
        } else if h == 2 {
            Voxel::Solid(BlockMaterial::Iron)
        } else if h == 3 {
            Voxel::Solid(BlockMaterial::Marble)
        } else {
            Voxel::Air
        }
    } else if t == 4 || h == 4 || w == 4 {
        Voxel::Air
    } else if h == 0 {
        if w == 0 {
            Voxel::Solid(BlockMaterial::Coal)
        } else if w == 1 {
            Voxel::Solid(BlockMaterial::Wood)
        } else if w == 2 {
            Voxel::Solid(BlockMaterial::Gold)
        } else {
            Voxel::Solid(BlockMaterial::Tin)
        }
    } else if h == 1 {
        if w == 0 {
            Voxel::Solid(BlockMaterial::Copper)
        } else {
            Voxel::Solid(BlockMaterial::Iron)
        }
    } else if h == 2 {
        if w == 0 {
            Voxel::Solid(BlockMaterial::Clay)
        } else {
            Voxel::Solid(BlockMaterial::Dirt)
        }
    } else {
        if w == 0 {
            Voxel::Solid(BlockMaterial::Silver)
        } else {
            Voxel::Solid(BlockMaterial::Gold)
        }
    }
}

/// Whether carving may touch a voxel at height `y`: only solid ones, never
/// water or ice, and below sea level neither sand, snow nor dirt.
pub open spec fn carvable_spec(voxel: Voxel, y: int) -> bool {
    match voxel {
        Voxel::Solid(mat) => {
            &&& mat != BlockMaterial::Water
            &&& mat != BlockMaterial::Ice
            &&& !(y < SEA_LEVEL && (mat == BlockMaterial::Sand || mat == BlockMaterial::Snow || mat
                == BlockMaterial::Dirt))
        },
        _ => false,
    }
}

/// Whether height `y` is low enough for caves: no more than one above the
/// column's height offset.
pub open spec fn within_carve_height(y: int, stats: ColumnStats) -> bool {
    y * UNIT <= stats.height_offset + UNIT
}

/// The voxel after carving. A voxel that carving may not touch, lies too
/// high, or meets none of the three tests stays. Cheese alone leaves ore;
/// a meatball or a tunnel leaves air.
pub open spec fn carved(voxel: Voxel, y: int, stats: ColumnStats, caves: CaveSamples) -> Voxel {
    if !carvable_spec(voxel, y) || !within_carve_height(y, stats) || !caves.any_spec() {
        voxel
    } else if caves.meatball_spec() || caves.spaghetti_spec() {
        Voxel::Air
    } else {
        ore_of(stats.temperature as int, stats.humidity as int, stats.weirdness as int)
    }
}

/// What fills a cheese cave in a column of this climate.
pub fn ore_fill(temperature: i64, humidity: i64, weirdness: i64) -> (fill: Voxel)
    ensures
        fill == ore_of(temperature as int, humidity as int, weirdness as int),
{
    if temperature < -WIDE_BAND {
        if humidity < -WIDE_BAND {
            Voxel::Solid(BlockMaterial::Copper)
        } else if humidity < -NARROW_BAND {
            Voxel::Solid(BlockMaterial::Adamantine)
        } else if humidity < NARROW_BAND {
            Voxel::Solid(BlockMaterial::Iron)
        } else if humidity < WIDE_BAND {
            Voxel::Solid(BlockMaterial::Marble)
        } else {
            Voxel::Air
        }
    } else if temperature < WIDE_BAND {
        if humidity < -WIDE_BAND {
            if weirdness < -WIDE_BAND {
                Voxel::Solid(BlockMaterial::Coal)
            } else if weirdness < -NARROW_BAND {
                Voxel::Solid(BlockMaterial::Wood)
            } else if weirdness < NARROW_BAND {
                Voxel::Solid(BlockMaterial::Gold)
            } else if weirdness < WIDE_BAND {
                Voxel::Solid(BlockMaterial::Tin)
            } else {
                Voxel::Air
            }
        } else if humidity < -NARROW_BAND {
            if weirdness < -WIDE_BAND {
                Voxel::Solid(BlockMaterial::Copper)
            } else if weirdness < WIDE_BAND {
                Voxel::Solid(BlockMaterial::Iron)
            } else {
                Voxel::Air
            }
        } else if humidity < NARROW_BAND {
            if weirdness < -WIDE_BAND {
                Voxel::Solid(BlockMaterial::Clay)
            } else if weirdness < WIDE_BAND {
                Voxel::Solid(BlockMaterial::Dirt)
            } else {
                Voxel::Air
            }
        } else if humidity < WIDE_BAND {
            if weirdness < -WIDE_BAND {
                Voxel::Solid(BlockMaterial::Silver)
            } else if weirdness < WIDE_BAND {
                Voxel::Solid(BlockMaterial::Gold)
            } else {
                Voxel::Air
            }
        } else {
            Voxel::Air
        }
    } else {
        Voxel::Air
    }
}

/// Whether carving may touch `voxel` at height `y`. Where it may not, the
/// voxel is final and no cave noise need be sampled for it.
pub fn carvable(voxel: Voxel, y: i32) -> (open: bool)
    ensures
        open == carvable_spec(voxel, y as int),
{
    match voxel {
        Voxel::Solid(BlockMaterial::Water) | Voxel::Solid(BlockMaterial::Ice) => false,
        Voxel::Solid(BlockMaterial::Sand)
        | Voxel::Solid(BlockMaterial::Snow)
        | Voxel::Solid(BlockMaterial::Dirt) => y >= SEA_LEVEL,
        Voxel::Solid(_) => true,
        _ => false,
    }
}

/// The cave pass: the voxel that stands at height `y` once caves are carved
/// out of the terrain pass's `voxel`.
pub fn carve(voxel: Voxel, y: i32, stats: &ColumnStats, caves: &CaveSamples) -> (after: Voxel)
    ensures
        after == carved(voxel, y as int, *stats, *caves),
{
    if !carvable(voxel, y) {
        return voxel;
    }
    let height: i128 = (y as i128) * (UNIT as i128);
    let ceiling: i128 = (stats.height_offset as i128) + (UNIT as i128);
    if height > ceiling {
        return voxel;
    }
    let cheese = caves.cheese();
    let meatball = caves.meatball();
    let spaghetti = caves.spaghetti();
    if meatball || spaghetti {
        Voxel::Air
    } else if cheese {
        ore_fill(stats.temperature, stats.humidity, stats.weirdness)
    } else {
        voxel
    }
}

/// The three tests combine as a table. For a voxel that carving may touch,
/// at a height where caves are cut: cheese alone puts the climate's ore in
/// its place; a meatball or a tunnel, with or without cheese, leaves air;
/// none of the three leaves the voxel as it was.
pub proof fn lemma_carve_table(voxel: Voxel, y: int, stats: ColumnStats, caves: CaveSamples)
    requires
        carvable_spec(voxel, y),
        within_carve_height(y, stats),
    ensures
        caves.cheese_spec() && !caves.meatball_spec() && !caves.spaghetti_spec() ==> carved(
            voxel,
            y,
            stats,
            caves,
        ) == ore_of(stats.temperature as int, stats.humidity as int, stats.weirdness as int),
        caves.meatball_spec() || caves.spaghetti_spec() ==> carved(voxel, y, stats, caves)
            == Voxel::Air,
        !caves.any_spec() ==> carved(voxel, y, stats, caves) == voxel,
{
}

/// Carving never touches what it is barred from, and never reaches above the
/// carve height: there the voxel stays, whatever the cave noise.
pub proof fn lemma_carve_leaves_protected(
    voxel: Voxel,
    y: int,
    stats: ColumnStats,
    caves: CaveSamples,
)
    requires
        !carvable_spec(voxel, y) || !within_carve_height(y, stats),
    ensures
        carved(voxel, y, stats, caves) == voxel,
{
}

} // verus!
