//! The origin of the biome that a chunk lies in.

use vstd::prelude::*;
use crate::coordinates::chunk_coordinates::ChunkCoordinates;
use crate::coordinates::global_coordinates::biased;
use crate::world_generator::biomes::biome::BIOME_SIZE_IN_BLOCKS;

verus! {

/// The unsigned world position of a biome's origin, a multiple of the size
/// of a biome along `x` and `z`.
#[derive(Hash)]
pub struct BiomeCoordinates {
    x: u32,
    z: u32,
}

impl View for BiomeCoordinates {
    type V = (u32, u32);

    closed spec fn view(&self) -> (u32, u32) {
        (self.x, self.z)
    }
}

impl BiomeCoordinates {
    pub fn get_x(&self) -> (x: u32)
        ensures
            x == self@.0,
    {
        self.x
    }

    pub fn get_z(&self) -> (z: u32)
        ensures
            z == self@.1,
    {
        self.z
    }

    /// The origin of the biome that holds the chunk at `chunk_coords`.
    pub fn from_chunk_coords(chunk_coords: &ChunkCoordinates) -> (coords: BiomeCoordinates)
        ensures
            coords@.0 == biased(chunk_coords@.0) - biased(chunk_coords@.0) % 2048,
            coords@.1 == biased(chunk_coords@.2) - biased(chunk_coords@.2) % 2048,
            coords@.0 % 2048 == 0,
            coords@.1 % 2048 == 0,
    {
        let (chunk_x, _, chunk_z) = chunk_coords.to_tuple();

        let global_x = ((chunk_x as i64) - (i32::MIN as i64)) as u32;
        let global_z = ((chunk_z as i64) - (i32::MIN as i64)) as u32;

        Self {
            x: global_x - (global_x % BIOME_SIZE_IN_BLOCKS as u32),
            z: global_z - (global_z % BIOME_SIZE_IN_BLOCKS as u32),
        }
    }
}

} // verus!
