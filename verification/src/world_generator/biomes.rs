//! The kinds of biome.

pub mod biome;
pub mod desert_biome;
pub mod grass_hills_biome;
