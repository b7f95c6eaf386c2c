//! The kinds of biome and their common measures.

use vstd::prelude::*;
use crate::block::{Block, BlockOrientation};
use crate::world_generator::biomes::desert_biome::DesertBiome;
use crate::world_generator::biomes::grass_hills_biome::GrassHillsBiome;

verus! {

/// Width and depth of a biome, in chunks.
pub const BIOME_SIZE_IN_CHUNKS: usize = 128;

/// Width and depth of a biome, in blocks.
pub const BIOME_SIZE_IN_BLOCKS: usize = 2048;

/// The height up to which empty space is filled with water.
pub const OCEAN_LEVEL: u32 = 48;

/// A kind of biome.
#[derive(Clone, Copy, Debug)]
pub enum Biome {
    Desert(DesertBiome),
    GrassHills(GrassHillsBiome),
}

impl Biome {
    /// The kind of block at height `y` of a column of the biome.
    pub open spec fn spec_block_id_at(self, y: u32, above_ground: bool) -> u16 {
        match self {
            Biome::Desert(_) => DesertBiome::spec_block_id_at(y, above_ground),
            Biome::GrassHills(_) => GrassHillsBiome::spec_block_id_at(y, above_ground),
        }
    }

    /// The block at height `y` of a column of the biome, given whether the
    /// height lies above the ground of that column.
    pub fn block_at(&self, y: u32, above_ground: bool) -> (block: Block)
        ensures
            block == Block::encode(
                self.spec_block_id_at(y, above_ground),
                BlockOrientation::PositiveX,
            ),
    {
        match self {
            Biome::Desert(_) => DesertBiome::block_at(y, above_ground),
            Biome::GrassHills(_) => GrassHillsBiome::block_at(y, above_ground),
        }
    }
}

} // verus!
