//! Coordinate systems: chunk origins, positions inside a chunk, biased world
//! positions, and positions relative to a biome.

pub mod biome_coordinates;
pub mod block_coords_in_biome;
pub mod block_coords_in_chunk;
pub mod chunk_coordinates;
pub mod global_coordinates;
