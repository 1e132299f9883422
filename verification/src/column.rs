//! Per-column scalars and the cache that keeps them for one request.

use std::collections::HashMap;
use vstd::prelude::*;
use crate::biome::{biome_of, Biome};
use crate::scalar::{saturate, saturated};

verus! {

broadcast use vstd::std_specs::hash::group_hash_axioms;

/// The squash factor of a column whose squash remap gave no value.
pub const DEFAULT_SQUASH: i64 = 300_000_000;

/// What is derived once for a column `(x, z)` and read at every height of it.
#[derive(Debug, Clone, Copy, PartialEq, Eq, Structural)]
pub struct ColumnStats {
    /// Height of the terrain surface, before the density noise bends it.
    pub height_offset: i64,
    /// How fast density falls with height.
    pub squash_factor: i64,
    pub temperature: i64,
    pub humidity: i64,
    pub weirdness: i64,
}

/// A remapped height, or nothing where the remap had no knots.
pub open spec fn height_or_zero(h: Option<i64>) -> int {
    match h {
        Some(v) => v as int,
        None => 0,
    }
}

/// The stats of a column, from the three remapped heights, the remapped
/// squash factor and the three climate samples: the height offset is the sum
/// of the heights, kept within the range of a scalar.
pub open spec fn assembled(
    continent_height: Option<i64>,
    erosion_height: Option<i64>,
    peaks_height: Option<i64>,
    squash: Option<i64>,
    temperature: i64,
    humidity: i64,
    weirdness: i64,
) -> ColumnStats {
    ColumnStats {
        height_offset: saturated(
            height_or_zero(continent_height) + height_or_zero(erosion_height) + height_or_zero(
                peaks_height,
            ),
        ) as i64,
        squash_factor: match squash {
            Some(s) => s,
            None => DEFAULT_SQUASH,
        },
        temperature,
        humidity,
        weirdness,
    }
}

impl ColumnStats {
    /// Puts a column's stats together from what was sampled for it. A height
    /// that is missing counts as zero, a missing squash factor as
    /// `DEFAULT_SQUASH`.
    pub fn assemble(
        continent_height: Option<i64>,
        erosion_height: Option<i64>,
        peaks_height: Option<i64>,
        squash: Option<i64>,
        temperature: i64,
        humidity: i64,
        weirdness: i64,
    ) -> (stats: ColumnStats)
        ensures
            stats == assembled(
                continent_height,
                erosion_height,
                peaks_height,
                squash,
                temperature,
                humidity,
                weirdness,
            ),
    {
        let a: i128 = match continent_height {
            Some(v) => v as i128,
            None => 0,
        };
        let b: i128 = match erosion_height {
            Some(v) => v as i128,
            None => 0,
        };
        let c: i128 = match peaks_height {
            Some(v) => v as i128,
            None => 0,
        };
        ColumnStats {
            height_offset: saturate(a + b + c),
            squash_factor: match squash {
                Some(s) => s,
                None => DEFAULT_SQUASH,
            },
            temperature,
            humidity,
            weirdness,
        }
    }

    /// The biome of this column.
    pub open spec fn biome_spec(self) -> Biome {
        biome_of(
            self.temperature as int,
            self.humidity as int,
            self.weirdness as int,
            self.height_offset as int,
        )
    }

    /// The biome of this column.
    pub fn biome(&self) -> (biome: Biome)
        ensures
            biome == self.biome_spec(),
    {
        Biome::classify(self.temperature, self.humidity, self.weirdness, self.height_offset)
    }
}

/// The number under which the cache files column `(x, z)`: a different one
/// for every column.
pub open spec fn column_key(x: int, z: int) -> int {
    (x + 0x8000_0000) * 0x1_0000_0000 + (z + 0x8000_0000)
}

/// The stats kept for the columns touched so far by one request.
pub struct ColumnCache {
    entries: HashMap<u64, ColumnStats>,
}

impl View for ColumnCache {
    type V = Map<(i32, i32), ColumnStats>;

    /// The columns held, each with its stats.
    closed spec fn view(&self) -> Map<(i32, i32), ColumnStats> {
        Map::new(
            |c: (i32, i32)| self.entries@.contains_key(column_key(c.0 as int, c.1 as int) as u64),
            |c: (i32, i32)| self.entries@[column_key(c.0 as int, c.1 as int) as u64],
        )
    }
}

fn key_of(x: i32, z: i32) -> (key: u64)
    ensures
        key == column_key(x as int, z as int),
{
    let hi: u64 = (x as i64 + 0x8000_0000) as u64;
    let lo: u64 = (z as i64 + 0x8000_0000) as u64;
    hi * 0x1_0000_0000 + lo
}

proof fn lemma_keys_differ(x1: i32, z1: i32, x2: i32, z2: i32)
    ensures
        0 <= column_key(x1 as int, z1 as int) <= u64::MAX,
        column_key(x1 as int, z1 as int) == column_key(x2 as int, z2 as int) ==> x1 == x2 && z1
            == z2,
{
}

impl ColumnCache {
    /// An empty cache.
    pub fn new() -> (cache: ColumnCache)
        ensures
            cache@ == Map::<(i32, i32), ColumnStats>::empty(),
    {
        let cache = ColumnCache { entries: HashMap::new() };
        assert(cache@ =~= Map::<(i32, i32), ColumnStats>::empty());
        cache
    }

    /// The stats kept for column `(x, z)`, if it was stored before.
    pub fn get(&self, x: i32, z: i32) -> (found: Option<ColumnStats>)
        ensures
            found == (if self@.contains_key((x, z)) {
                Some(self@[(x, z)])
            } else {
                None
            }),
    {
        let key = key_of(x, z);
        match self.entries.get(&key) {
            Some(stats) => Some(*stats),
            None => None,
        }
    }

    /// Keeps `stats` for column `(x, z)`; every other column stays as it was.
    pub fn insert(&mut self, x: i32, z: i32, stats: ColumnStats)
        ensures
            final(self)@ == old(self)@.insert((x, z), stats),
    {
        let key = key_of(x, z);
        self.entries.insert(key, stats);
        proof {
            assert forall|c: (i32, i32)| c != (x, z) implies column_key(c.0 as int, c.1 as int)
                != key by {
                lemma_keys_differ(c.0, c.1, x, z);
            }
            assert(self@ =~= old(self)@.insert((x, z), stats));
        }
    }
}

/// Whether every column that `held` keeps has the stats that `fresh` would
/// compute for it anew.
pub open spec fn faithful(
    held: Map<(i32, i32), ColumnStats>,
    fresh: spec_fn(i32, i32) -> ColumnStats,
) -> bool {
    forall|c: (i32, i32)| #[trigger] held.contains_key(c) ==> held[c] == fresh(c.0, c.1)
}

/// Caching changes nothing. Let `fresh` be any way to compute a column's
/// stats from its coordinates alone. An empty cache is faithful to it; a
/// faithful cache stays so when the stats computed for a column are stored
/// under that column; and what a faithful cache returns for a column is what
/// computing it again would give.
pub proof fn lemma_cache_is_faithful(
    held: Map<(i32, i32), ColumnStats>,
    fresh: spec_fn(i32, i32) -> ColumnStats,
    x: i32,
    z: i32,
)
    requires
        faithful(held, fresh),
    ensures
        faithful(Map::<(i32, i32), ColumnStats>::empty(), fresh),
        faithful(held.insert((x, z), fresh(x, z)), fresh),
        held.insert((x, z), fresh(x, z))[(x, z)] == fresh(x, z),
        held.contains_key((x, z)) ==> held[(x, z)] == fresh(x, z),
{
}

} // verus!
