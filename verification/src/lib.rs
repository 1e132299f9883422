//! Procedural voxel terrain: the rules that turn sampled noise into materials.
//!
//! Every scalar the rules read is a fixed-point number: an `i64` that counts
//! billionths (see [`scalar::UNIT`]). Whoever samples the noise fields rounds
//! each sample to that grid and hands it in; every decision made here is then
//! exact integer arithmetic.

pub mod scalar;
pub mod material;
pub mod biome;
pub mod column;
pub mod density;
pub mod cave;
pub mod chunk;
pub mod generator;
pub mod world;
pub mod ui;
