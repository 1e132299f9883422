//! Biomes: a classification of a column by its climate and height.

use vstd::prelude::*;
use crate::material::BlockMaterial;
use crate::scalar::UNIT;

verus! {

/// The eight biomes.
#[derive(Debug, Clone, Copy, Hash, PartialEq, Eq, Structural)]
pub enum Biome {
    Grassland,
    Forest,
    PineForest,
    Desert,
    Savanna,
    ScrubDesert,
    Taiga,
    Tundra,
}

/// Above this temperature a column is hot; below its negative, cold.
pub const TEMPERATURE_BAND: i64 = 400_000_000;

/// Below this humidity a column is dry.
pub const DRY_BELOW: i64 = -300_000_000;

/// Above this humidity a temperate column is humid.
pub const HUMID_ABOVE: i64 = 200_000_000;

/// The height that parts lowlands from highlands.
pub const HIGHLAND: i64 = 50 * UNIT;

pub open spec fn is_hot(temperature: int) -> bool {
    temperature > TEMPERATURE_BAND
}

pub open spec fn is_cold(temperature: int) -> bool {
    temperature < -TEMPERATURE_BAND
}

pub open spec fn is_temperate(temperature: int) -> bool {
    -TEMPERATURE_BAND <= temperature <= TEMPERATURE_BAND
}

pub open spec fn is_dry(humidity: int) -> bool {
    humidity < DRY_BELOW
}

pub open spec fn is_humid(humidity: int) -> bool {
    humidity > HUMID_ABOVE
}

/// Whether the climate `(temperature, humidity, weirdness)` at height
/// `height_offset` lies in the region of `biome`. Each region is written out
/// on its own; [`lemma_regions_partition`] shows that the eight of them cover
/// every input once.
pub open spec fn in_region(
    biome: Biome,
    temperature: int,
    humidity: int,
    weirdness: int,
    height_offset: int,
) -> bool {
    let low = height_offset < HIGHLAND;
    let odd = weirdness > 0;
    let moderate = !is_dry(humidity) && !is_humid(humidity);
    match biome {
        Biome::Desert => is_hot(temperature) && is_dry(humidity) && height_offset > HIGHLAND,
        Biome::Savanna => is_hot(temperature) && is_dry(humidity) && height_offset <= HIGHLAND,
        Biome::ScrubDesert => (is_hot(temperature) && !is_dry(humidity)) || (is_temperate(
            temperature,
        ) && is_dry(humidity) && !low),
        Biome::Tundra => is_cold(temperature) && is_dry(humidity) && low,
        Biome::Taiga => is_cold(temperature) && (is_dry(humidity) != low),
        Biome::PineForest => (is_cold(temperature) && !is_dry(humidity) && !low) || (is_temperate(
            temperature,
        ) && is_humid(humidity) && odd),
        Biome::Forest => is_temperate(temperature) && ((is_humid(humidity) && !odd) || (moderate
            && odd)),
        Biome::Grassland => is_temperate(temperature) && ((is_dry(humidity) && low) || (moderate
            && !odd)),
    }
}

/// The biome of a climate: the one whose region holds it.
pub open spec fn biome_of(temperature: int, humidity: int, weirdness: int, height_offset: int)
    -> Biome {
    if is_hot(temperature) {
        if is_dry(humidity) {
            if height_offset > HIGHLAND {
                Biome::Desert
            } else {
                Biome::Savanna
            }
        } else {
            Biome::ScrubDesert
        }
    } else if is_cold(temperature) {
        if is_dry(humidity) {
            if height_offset < HIGHLAND {
                Biome::Tundra
            } else {
                Biome::Taiga
            }
        } else if height_offset < HIGHLAND {
            Biome::Taiga
        } else {
            Biome::PineForest
        }
    } else if is_dry(humidity) {
        if height_offset < HIGHLAND {
            Biome::Grassland
        } else {
            Biome::ScrubDesert
        }
    } else if is_humid(humidity) {
        if weirdness > 0 {
            Biome::PineForest
        } else {
            Biome::Forest
        }
    } else if weirdness > 0 {
        Biome::Forest
    } else {
        Biome::Grassland
    }
}

/// The material of a biome's topmost solid block.
pub open spec fn surface_material_of(biome: Biome) -> BlockMaterial {
    match biome {
        Biome::Grassland => BlockMaterial::Grass,
        Biome::Forest => BlockMaterial::Leaves,
        Biome::PineForest => BlockMaterial::Coal,
        Biome::Taiga => BlockMaterial::Wood,
        Biome::Desert => BlockMaterial::Sand,
        Biome::Savanna => BlockMaterial::Gold,
        Biome::ScrubDesert => BlockMaterial::Platinum,
        Biome::Tundra => BlockMaterial::Snow,
    }
}

/// The material of the few blocks under a biome's surface.
pub open spec fn subsurface_material_of(biome: Biome) -> BlockMaterial {
    match biome {
        Biome::Desert => BlockMaterial::Sand,
        Biome::Taiga | Biome::Tundra => BlockMaterial::Snow,
        _ => BlockMaterial::Dirt,
    }
}

impl Biome {
    /// Classifies a column. Every input has a biome; which one, `biome_of`
    /// says, and with it the region that the input lies in.
    pub fn classify(temperature: i64, humidity: i64, weirdness: i64, height_offset: i64) -> (biome:
        Biome)
        ensures
            biome == biome_of(
                temperature as int,
                humidity as int,
                weirdness as int,
                height_offset as int,
            ),
            in_region(
                biome,
                temperature as int,
                humidity as int,
                weirdness as int,
                height_offset as int,
            ),
    {
        let low = height_offset < HIGHLAND;
        if temperature > TEMPERATURE_BAND {
            if humidity >= DRY_BELOW {
                Biome::ScrubDesert
            } else if height_offset > HIGHLAND {
                Biome::Desert
            } else {
                Biome::Savanna
            }
        } else if temperature < -TEMPERATURE_BAND {
            match (humidity < DRY_BELOW, low) {
                (true, true) => Biome::Tundra,
                (false, false) => Biome::PineForest,
                _ => Biome::Taiga,
            }
        } else if humidity < DRY_BELOW {
            if low {
                Biome::Grassland
            } else {
                Biome::ScrubDesert
            }
        } else {
            match (humidity > HUMID_ABOVE, weirdness > 0) {
                (true, true) => Biome::PineForest,
                (false, false) => Biome::Grassland,
                _ => Biome::Forest,
            }
        }
    }

    /// The material of this biome's topmost solid block.
    pub fn surface_material(self) -> (mat: BlockMaterial)
        ensures
            mat == surface_material_of(self),
    {
        match self {
            Biome::Grassland => BlockMaterial::Grass,
            Biome::Forest => BlockMaterial::Leaves,
            Biome::PineForest => BlockMaterial::Coal,
            Biome::Taiga => BlockMaterial::Wood,
            Biome::Desert => BlockMaterial::Sand,
            Biome::Savanna => BlockMaterial::Gold,
            Biome::ScrubDesert => BlockMaterial::Platinum,
            Biome::Tundra => BlockMaterial::Snow,
        }
    }

    /// The material of the few blocks under this biome's surface.
    pub fn subsurface_material(self) -> (mat: BlockMaterial)
        ensures
            mat == subsurface_material_of(self),
    {
        match self {
            Biome::Desert => BlockMaterial::Sand,
            Biome::Taiga | Biome::Tundra => BlockMaterial::Snow,
            _ => BlockMaterial::Dirt,
        }
    }
}

/// Classification is total and unambiguous: whatever the climate and the
/// height, the input lies in the region of one biome and of no other, and
/// that biome is the one `biome_of` names.
pub proof fn lemma_regions_partition(
    biome: Biome,
    temperature: int,
    humidity: int,
    weirdness: int,
    height_offset: int,
)
    ensures
        in_region(biome, temperature, humidity, weirdness, height_offset) <==> biome == biome_of(
            temperature,
            humidity,
            weirdness,
            height_offset,
        ),
{
}

} // verus!
