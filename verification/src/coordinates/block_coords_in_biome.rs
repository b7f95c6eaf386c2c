//! The position of a block relative to the origin of its biome.

use vstd::prelude::*;
use crate::coordinates::global_coordinates::GlobalCoordinates;
use crate::world_generator::biomes::biome::BIOME_SIZE_IN_BLOCKS;

verus! {

/// A position inside a biome: each coordinate is less than the size of a
/// biome.
pub struct BlockCoordsInBiome {
    x: u16,
    y: u16,
    z: u16,
}

impl View for BlockCoordsInBiome {
    type V = (u16, u16, u16);

    closed spec fn view(&self) -> (u16, u16, u16) {
        (self.x, self.y, self.z)
    }
}

impl BlockCoordsInBiome {
    /// The position inside its biome of the block at `coords` in the world.
    pub fn from_global_coordinates(coords: &GlobalCoordinates) -> (in_biome: BlockCoordsInBiome)
        ensures
            in_biome@.0 == coords@.0 % 2048,
            in_biome@.1 == coords@.1 % 2048,
            in_biome@.2 == coords@.2 % 2048,
    {
        Self {
            x: (coords.get_x() % BIOME_SIZE_IN_BLOCKS as u32) as u16,
            y: (coords.get_y() % BIOME_SIZE_IN_BLOCKS as u32) as u16,
            z: (coords.get_z() % BIOME_SIZE_IN_BLOCKS as u32) as u16,
        }
    }

    #[inline]
    pub fn get_x(&self) -> (x: u16)
        ensures
            x == self@.0,
    {
        self.x
    }

    #[inline]
    pub fn get_y(&self) -> (y: u16)
        ensures
            y == self@.1,
    {
        self.y
    }

    #[inline]
    pub fn get_z(&self) -> (z: u16)
        ensures
            z == self@.2,
    {
        self.z
    }
}

} // verus!
