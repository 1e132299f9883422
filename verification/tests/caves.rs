use gcd_voxel_game::cave::{carvable, carve, ore_fill, CaveSamples};
use gcd_voxel_game::column::ColumnStats;
use gcd_voxel_game::material::{BlockMaterial, Voxel};
use gcd_voxel_game::scalar::UNIT;

const CHEESE: CaveSamples = CaveSamples {
    cave_density: 990_000_000,
    cave_warp: 0,
    spaghetti_a: 500_000_000,
    spaghetti_b: 500_000_000,
};

const MEATBALL: CaveSamples = CaveSamples {
    cave_density: 0,
    cave_warp: -900_000_000,
    spaghetti_a: 100_000_000,
    spaghetti_b: -100_000_000,
};

const SPAGHETTI: CaveSamples = CaveSamples {
    cave_density: 0,
    cave_warp: 0,
    spaghetti_a: 7_000_000,
    spaghetti_b: -7_000_000,
};

const QUIET: CaveSamples = CaveSamples {
    cave_density: 0,
    cave_warp: 0,
    spaghetti_a: 500_000_000,
    spaghetti_b: 500_000_000,
};

fn climate(temperature: i64, humidity: i64, weirdness: i64) -> ColumnStats {
    ColumnStats {
        height_offset: 100 * UNIT,
        squash_factor: UNIT,
        temperature,
        humidity,
        weirdness,
    }
}

fn solid(mat: BlockMaterial) -> Voxel {
    Voxel::Solid(mat)
}

fn hundredths(n: i64) -> i64 {
    n * (UNIT / 100)
}

#[test]
fn cheese_threshold() {
    let mut caves = QUIET;
    caves.cave_density = 981_300_000;
    assert!(!caves.cheese());
    caves.cave_density = 981_300_001;
    assert!(caves.cheese());
    assert!(CHEESE.cheese());
    assert!(!CHEESE.meatball());
    assert!(!CHEESE.spaghetti());
}

#[test]
fn meatball_threshold() {
    assert!(MEATBALL.meatball());
    assert!(!MEATBALL.cheese());
    assert!(!MEATBALL.spaghetti());
    let mut caves = MEATBALL;
    // warp + |a| = -0.494321 is not below the threshold
    caves.cave_warp = -594_321_000;
    assert!(!caves.meatball());
    caves.cave_warp = -594_321_001;
    assert!(caves.meatball());
    // both tunnel noises must agree
    caves.spaghetti_b = -200_000_000;
    assert!(!caves.meatball());
}

#[test]
fn spaghetti_threshold() {
    assert!(SPAGHETTI.spaghetti());
    let mut caves = SPAGHETTI;
    caves.spaghetti_a = 7_654_321;
    assert!(!caves.spaghetti());
    caves.spaghetti_a = -7_654_320;
    assert!(caves.spaghetti());
    caves.spaghetti_b = -7_654_321;
    assert!(!caves.spaghetti());
}

#[test]
fn tests_at_the_ends_of_the_range() {
    let caves = CaveSamples {
        cave_density: i64::MAX,
        cave_warp: i64::MIN,
        spaghetti_a: i64::MIN,
        spaghetti_b: i64::MIN,
    };
    assert!(caves.cheese());
    assert!(!caves.spaghetti());
    assert!(!caves.meatball());
    // the sum is -1: small, but not below the threshold
    let caves = CaveSamples {
        cave_density: i64::MIN,
        cave_warp: i64::MIN,
        spaghetti_a: i64::MAX,
        spaghetti_b: i64::MAX,
    };
    assert!(!caves.meatball());
    let caves = CaveSamples {
        cave_density: i64::MIN,
        cave_warp: i64::MIN,
        spaghetti_a: i64::MAX - 494_321_000,
        spaghetti_b: -(i64::MAX - 494_321_000),
    };
    assert!(caves.meatball());
    let caves = CaveSamples {
        cave_density: i64::MIN,
        cave_warp: i64::MAX,
        spaghetti_a: i64::MAX,
        spaghetti_b: i64::MAX,
    };
    assert!(!caves.meatball());
}

#[test]
fn cheese_alone_leaves_ore() {
    let stats = climate(hundredths(-60), hundredths(-60), 0);
    assert_eq!(carve(solid(BlockMaterial::Stone), 0, &stats, &CHEESE), solid(BlockMaterial::Copper));
    let stats = climate(0, 0, 0);
    assert_eq!(carve(solid(BlockMaterial::Stone), 0, &stats, &CHEESE), solid(BlockMaterial::Dirt));
    let stats = climate(hundredths(60), 0, 0);
    assert_eq!(carve(solid(BlockMaterial::Stone), 0, &stats, &CHEESE), Voxel::Air);
}

#[test]
fn meatball_or_spaghetti_leaves_air() {
    let stats = climate(0, 0, 0);
    let stone = solid(BlockMaterial::Stone);
    assert_eq!(carve(stone, 0, &stats, &MEATBALL), Voxel::Air);
    assert_eq!(carve(stone, 0, &stats, &SPAGHETTI), Voxel::Air);
    let mut both = MEATBALL;
    both.cave_density = 990_000_000;
    assert_eq!(carve(stone, 0, &stats, &both), Voxel::Air);
    let mut both = SPAGHETTI;
    both.cave_density = 990_000_000;
    assert_eq!(carve(stone, 0, &stats, &both), Voxel::Air);
    let all = CaveSamples {
        cave_density: 990_000_000,
        cave_warp: -900_000_000,
        spaghetti_a: 1,
        spaghetti_b: -1,
    };
    assert!(all.cheese() && all.meatball() && all.spaghetti());
    assert_eq!(carve(stone, 0, &stats, &all), Voxel::Air);
}

#[test]
fn no_test_leaves_the_voxel() {
    let stats = climate(0, 0, 0);
    assert_eq!(carve(solid(BlockMaterial::Stone), 0, &stats, &QUIET), solid(BlockMaterial::Stone));
    assert_eq!(carve(solid(BlockMaterial::Grass), 99, &stats, &QUIET), solid(BlockMaterial::Grass));
}

#[test]
fn no_caves_above_the_carve_height() {
    let stats = climate(0, 0, 0);
    let stone = solid(BlockMaterial::Stone);
    // height offset 100: caves reach up to 101
    assert_eq!(carve(stone, 101, &stats, &MEATBALL), Voxel::Air);
    assert_eq!(carve(stone, 102, &stats, &MEATBALL), stone);
    assert_eq!(carve(stone, 102, &stats, &CHEESE), stone);
    let mut lower = stats;
    lower.height_offset = 100 * UNIT - 1;
    assert_eq!(carve(stone, 101, &lower, &MEATBALL), stone);
    assert_eq!(carve(stone, 100, &lower, &MEATBALL), Voxel::Air);
}

#[test]
fn liquids_and_empty_space_are_never_carved() {
    let stats = climate(0, 0, 0);
    for voxel in [
        solid(BlockMaterial::Water),
        solid(BlockMaterial::Ice),
        Voxel::Air,
        Voxel::Unset,
    ] {
        assert!(!carvable(voxel, 0));
        assert!(!carvable(voxel, -50));
        assert_eq!(carve(voxel, 0, &stats, &MEATBALL), voxel);
        assert_eq!(carve(voxel, -50, &stats, &CHEESE), voxel);
    }
}

#[test]
fn soft_ground_is_kept_below_sea_level() {
    let stats = climate(0, 0, 0);
    for mat in [BlockMaterial::Sand, BlockMaterial::Snow, BlockMaterial::Dirt] {
        assert!(!carvable(solid(mat), -11));
        assert!(carvable(solid(mat), -10));
        assert_eq!(carve(solid(mat), -11, &stats, &MEATBALL), solid(mat));
        assert_eq!(carve(solid(mat), -10, &stats, &MEATBALL), Voxel::Air);
    }
    assert!(carvable(solid(BlockMaterial::Stone), -11));
    assert!(carvable(solid(BlockMaterial::Grass), -11));
    assert!(carvable(solid(BlockMaterial::Lava), -300));
    assert_eq!(carve(solid(BlockMaterial::Stone), -11, &stats, &MEATBALL), Voxel::Air);
}

#[test]
fn ore_table_cold() {
    let t = hundredths(-60);
    assert_eq!(ore_fill(t, hundredths(-60), 0), solid(BlockMaterial::Copper));
    assert_eq!(ore_fill(t, hundredths(-50), 0), solid(BlockMaterial::Adamantine));
    assert_eq!(ore_fill(t, hundredths(-30), 0), solid(BlockMaterial::Adamantine));
    assert_eq!(ore_fill(t, hundredths(-10), 0), solid(BlockMaterial::Iron));
    assert_eq!(ore_fill(t, 0, 0), solid(BlockMaterial::Iron));
    assert_eq!(ore_fill(t, hundredths(10), 0), solid(BlockMaterial::Marble));
    assert_eq!(ore_fill(t, hundredths(30), 0), solid(BlockMaterial::Marble));
    assert_eq!(ore_fill(t, hundredths(50), 0), Voxel::Air);
    assert_eq!(ore_fill(t, hundredths(-60), hundredths(90)), solid(BlockMaterial::Copper));
}

#[test]
fn ore_table_mild_dry() {
    let h = hundredths(-60);
    assert_eq!(ore_fill(0, h, hundredths(-60)), solid(BlockMaterial::Coal));
    assert_eq!(ore_fill(0, h, hundredths(-30)), solid(BlockMaterial::Wood));
    assert_eq!(ore_fill(0, h, 0), solid(BlockMaterial::Gold));
    assert_eq!(ore_fill(0, h, hundredths(30)), solid(BlockMaterial::Tin));
    assert_eq!(ore_fill(0, h, hundredths(50)), Voxel::Air);
    assert_eq!(ore_fill(hundredths(-50), h, hundredths(-60)), solid(BlockMaterial::Coal));
}

#[test]
fn ore_table_mild_other_bands() {
    assert_eq!(ore_fill(0, hundredths(-30), hundredths(-60)), solid(BlockMaterial::Copper));
    assert_eq!(ore_fill(0, hundredths(-30), hundredths(-50)), solid(BlockMaterial::Iron));
    assert_eq!(ore_fill(0, hundredths(-30), hundredths(49)), solid(BlockMaterial::Iron));
    assert_eq!(ore_fill(0, hundredths(-30), hundredths(50)), Voxel::Air);
    assert_eq!(ore_fill(0, 0, hundredths(-60)), solid(BlockMaterial::Clay));
    assert_eq!(ore_fill(0, 0, 0), solid(BlockMaterial::Dirt));
    assert_eq!(ore_fill(0, 0, hundredths(60)), Voxel::Air);
    assert_eq!(ore_fill(0, hundredths(30), hundredths(-60)), solid(BlockMaterial::Silver));
    assert_eq!(ore_fill(0, hundredths(30), 0), solid(BlockMaterial::Gold));
    assert_eq!(ore_fill(0, hundredths(30), hundredths(60)), Voxel::Air);
    assert_eq!(ore_fill(0, hundredths(50), 0), Voxel::Air);
}

#[test]
fn ore_table_hot_is_empty() {
    assert_eq!(ore_fill(hundredths(50), hundredths(-60), hundredths(-60)), Voxel::Air);
    assert_eq!(ore_fill(hundredths(49), hundredths(-60), hundredths(-60)), solid(BlockMaterial::Coal));
    assert_eq!(ore_fill(i64::MAX, 0, 0), Voxel::Air);
    assert_eq!(ore_fill(i64::MIN, i64::MIN, i64::MIN), solid(BlockMaterial::Copper));
}
