//! Which biome a chunk belongs to.

pub mod biomes;
pub mod generator;
