//! The grass hills: rolling hills with sandy shores.

use vstd::prelude::*;
use crate::block::{Block, BlockOrientation};
use crate::chunk_renderer::blocks_resources::blocks_ids::{
    AIR_BLOCK,
    GRASS_BLOCK,
    SAND_BLOCK,
    WATER_BLOCK,
};
use crate::world_generator::biomes::biome::OCEAN_LEVEL;

verus! {

/// The grass hills biome.
#[derive(Clone, Copy, Debug)]
pub struct GrassHillsBiome;

impl GrassHillsBiome {
    /// The kind of block at height `y`: in the ground, grass from two blocks
    /// above the level of the ocean and sand below; above the ground water
    /// up to the level of the ocean, then air.
    pub open spec fn spec_block_id_at(y: u32, above_ground: bool) -> u16 {
        if above_ground {
            if y <= OCEAN_LEVEL {
                WATER_BLOCK
            } else {
                AIR_BLOCK
            }
        } else {
            if y >= OCEAN_LEVEL + 2 {
                GRASS_BLOCK
            } else {
                SAND_BLOCK
            }
        }
    }

    /// The block at height `y` of a column of the grass hills, given whether
    /// the height lies above the ground of that column.
    pub fn block_at(y: u32, above_ground: bool) -> (block: Block)
        ensures
            block == Block::encode(
                Self::spec_block_id_at(y, above_ground),
                BlockOrientation::PositiveX,
            ),
    {
        if above_ground {
            if y <= OCEAN_LEVEL {
                Block::new(WATER_BLOCK, BlockOrientation::PositiveX)
            } else {
                Block::new(AIR_BLOCK, BlockOrientation::PositiveX)
            }
        } else {
            if y >= OCEAN_LEVEL + 2 {
                Block::new(GRASS_BLOCK, BlockOrientation::PositiveX)
            } else {
                Block::new(SAND_BLOCK, BlockOrientation::PositiveX)
            }
        }
    }
}

} // verus!
