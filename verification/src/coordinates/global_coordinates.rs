//! The position of a block in the world, as unsigned numbers.
//!
//! Along `x` and `z` the position is moved up by 2^31, so that blocks of
//! chunks with negative origins have unsigned positions too.

use vstd::prelude::*;
use crate::coordinates::block_coords_in_chunk::BlockCoordsInChunk;
use crate::coordinates::chunk_coordinates::ChunkCoordinates;

verus! {

/// The unsigned world position of a block.
pub struct GlobalCoordinates {
    x: u32,
    y: u32,
    z: u32,
}

impl View for GlobalCoordinates {
    type V = (u32, u32, u32);

    closed spec fn view(&self) -> (u32, u32, u32) {
        (self.x, self.y, self.z)
    }
}

/// A signed coordinate moved up by 2^31.
pub open spec fn biased(coordinate: i32) -> int {
    coordinate + 0x8000_0000
}

/// A signed coordinate read as an unsigned number of 32 bits.
pub open spec fn reinterpreted(coordinate: i32) -> int {
    if coordinate >= 0 {
        coordinate as int
    } else {
        coordinate + 0x1_0000_0000
    }
}

impl GlobalCoordinates {
    /// Whether the position of the block at `block_pos` in the chunk at
    /// `parent_chunk_coords` fits 32 bits along each axis.
    pub open spec fn fits(
        parent_chunk_coords: &ChunkCoordinates,
        block_pos: &BlockCoordsInChunk,
    ) -> bool {
        &&& biased(parent_chunk_coords@.0) + block_pos@.0 <= u32::MAX
        &&& reinterpreted(parent_chunk_coords@.1) + block_pos@.1 <= u32::MAX
        &&& biased(parent_chunk_coords@.2) + block_pos@.2 <= u32::MAX
    }

    /// The world position of the block at `block_pos` in the chunk at
    /// `parent_chunk_coords`.
    pub fn from_block_coordinates(
        parent_chunk_coords: &ChunkCoordinates,
        block_pos: &BlockCoordsInChunk,
    ) -> (coords: GlobalCoordinates)
        requires
            Self::fits(parent_chunk_coords, block_pos),
        ensures
            coords@.0 == biased(parent_chunk_coords@.0) + block_pos@.0,
            coords@.1 == reinterpreted(parent_chunk_coords@.1) + block_pos@.1,
            coords@.2 == biased(parent_chunk_coords@.2) + block_pos@.2,
    {
        let (x, y, z) = parent_chunk_coords.to_tuple();

        let parent_x: u32 = ((x as i64) - (i32::MIN as i64)) as u32;
        let parent_y: u32 = if y >= 0 {
            y as u32
        } else {
            ((y as i64) + 0x1_0000_0000) as u32
        };
        let parent_z: u32 = ((z as i64) - (i32::MIN as i64)) as u32;

        let (block_x, block_y, block_z) = block_pos.pos_tuple_u32();

        Self { x: parent_x + block_x, y: parent_y + block_y, z: parent_z + block_z }
    }

    #[inline]
    pub fn get_x(&self) -> (x: u32)
        ensures
            x == self@.0,
    {
        self.x
    }

    #[inline]
    pub fn get_y(&self) -> (y: u32)
        ensures
            y == self@.1,
    {
        self.y
    }

    #[inline]
    pub fn get_z(&self) -> (z: u32)
        ensures
            z == self@.2,
    {
        self.z
    }
}

} // verus!
