//! The desert: dunes of sand on a round island.

use vstd::prelude::*;
use crate::block::{Block, BlockOrientation};
use crate::chunk_renderer::blocks_resources::blocks_ids::{AIR_BLOCK, SAND_BLOCK, WATER_BLOCK};
use crate::world_generator::biomes::biome::OCEAN_LEVEL;

verus! {

/// The desert biome.
#[derive(Clone, Copy, Debug)]
pub struct DesertBiome;

impl DesertBiome {
    /// The kind of block at height `y`: sand in the ground; above it water
    /// up to the level of the ocean, then air.
    pub open spec fn spec_block_id_at(y: u32, above_ground: bool) -> u16 {
        if above_ground {
            if y <= OCEAN_LEVEL {
                WATER_BLOCK
            } else {
                AIR_BLOCK
            }
        } else {
            SAND_BLOCK
        }
    }

    /// The block at height `y` of a column of the desert, given whether the
    /// height lies above the ground of that column.
    pub fn block_at(y: u32, above_ground: bool) -> (block: Block)
        ensures
            block == Block::encode(
                Self::spec_block_id_at(y, above_ground),
                BlockOrientation::PositiveX,
            ),
    {
        if above_ground {
            if y <= OCEAN_LEVEL {
                Block::new(WATER_BLOCK, BlockOrientation::PositiveX)
            } else {
                Block::new(AIR_BLOCK, BlockOrientation::PositiveX)
            }
        } else {
            Block::new(SAND_BLOCK, BlockOrientation::PositiveX)
        }
    }
}

} // verus!
