//! The position of a block inside its chunk, packed into sixteen bits.
//!
//! Bit layout, most significant first: `XXXX YYYY YYYY ZZZZ`.

use vstd::prelude::*;
use crate::chunk::{CHUNK_HEIGHT, CHUNK_SIZE, NB_BLOCKS_PER_CHUNK};

verus! {

/// The `x` of the block stored at linear index `index`.
pub open spec fn index_x(index: int) -> int {
    index / 4096
}

/// The `y` of the block stored at linear index `index`.
pub open spec fn index_y(index: int) -> int {
    (index % 4096) / 16
}

/// The `z` of the block stored at linear index `index`.
pub open spec fn index_z(index: int) -> int {
    index % 16
}

/// The linear index at which the block at `(x, y, z)` is stored.
pub open spec fn linear_index(x: int, y: int, z: int) -> int {
    x * 4096 + y * 16 + z
}

/// A local position `(x, y, z)` with `x, z < 16` and `y < 256`.
pub struct BlockCoordsInChunk(u16);

impl View for BlockCoordsInChunk {
    type V = (int, int, int);

    closed spec fn view(&self) -> (int, int, int) {
        (self.0 as int / 4096, (self.0 as int / 16) % 256, self.0 as int % 16)
    }
}

impl BlockCoordsInChunk {
    /// The packed sixteen bits.
    pub closed spec fn bits(&self) -> u16 {
        self.0
    }

    /// The bits that `new` packs: `y` is cut to sixteen bits and, where it
    /// does not fit eight, runs over into the `x` field.
    pub open spec fn packed(x: int, y: int, z: int) -> u16 {
        (((((x as u16) << 8) | (y as u16)) << 4) | (z as u16))
    }

    /// Packs a local position.
    pub fn new(x: usize, y: usize, z: usize) -> (coords: BlockCoordsInChunk)
        requires
            x < CHUNK_SIZE,
            z < CHUNK_SIZE,
        ensures
            coords.bits() == Self::packed(x as int, y as int, z as int),
            y < CHUNK_HEIGHT ==> coords@ == (x as int, y as int, z as int),
    {
        let x16: u16 = x as u16;
        let y16: u16 = y as u16;
        let z16: u16 = z as u16;
        let data: u16 = (((x16 << 8) | y16) << 4) | z16;
        assert(y16 < 256 ==> (data / 4096 == x16 && (data / 16) % 256 == y16 && data % 16 == z16))
            by (bit_vector)
            requires
                x16 < 16,
                z16 < 16,
                data == (((x16 << 8) | y16) << 4) | z16,
        ;
        Self(data)
    }

    /// The position of the block stored at linear index `block_index`.
    pub fn from_block_index(block_index: usize) -> (coords: BlockCoordsInChunk)
        requires
            block_index < NB_BLOCKS_PER_CHUNK,
        ensures
            coords@ == (
                index_x(block_index as int),
                index_y(block_index as int),
                index_z(block_index as int),
            ),
            linear_index(coords@.0, coords@.1, coords@.2) == block_index,
    {
        let x = block_index / (CHUNK_SIZE * CHUNK_HEIGHT);
        let index = block_index - x * (CHUNK_SIZE * CHUNK_HEIGHT);
        let y = index / CHUNK_SIZE;
        let z = index % CHUNK_SIZE;
        Self::new(x, y, z)
    }

    pub fn get_x(&self) -> (x: u8)
        ensures
            x == self@.0,
            x < 16,
    {
        let bits: u16 = self.0;
        assert(bits >> 12 == bits / 4096 && bits >> 12 < 16) by (bit_vector);
        (bits >> 12) as u8
    }

    pub fn get_y(&self) -> (y: u8)
        ensures
            y == self@.1,
    {
        let bits: u16 = self.0;
        assert((bits << 4) >> 8 == (bits / 16) % 256 && (bits << 4) >> 8 < 256) by (bit_vector);
        ((bits << 4) >> 8) as u8
    }

    pub fn get_z(&self) -> (z: u8)
        ensures
            z == self@.2,
            z < 16,
    {
        let bits: u16 = self.0;
        assert(bits & 0xF == bits % 16 && bits & 0xF < 16) by (bit_vector);
        (bits & 0xF) as u8
    }

    pub fn pos_tuple(&self) -> (pos: (u8, u8, u8))
        ensures
            (pos.0 as int, pos.1 as int, pos.2 as int) == self@,
    {
        (self.get_x(), self.get_y(), self.get_z())
    }

    pub fn pos_tuple_u32(&self) -> (pos: (u32, u32, u32))
        ensures
            (pos.0 as int, pos.1 as int, pos.2 as int) == self@,
    {
        (self.get_x() as u32, self.get_y() as u32, self.get_z() as u32)
    }

    pub fn get_as_u16(&self) -> (bits: u16)
        ensures
            bits == self.bits(),
    {
        self.0
    }

    pub fn get_as_u32(&self) -> (bits: u32)
        ensures
            bits == self.bits(),
    {
        self.0 as u32
    }
}

/// Every local position lies inside the chunk.
pub proof fn lemma_position_in_chunk(coords: BlockCoordsInChunk)
    ensures
        0 <= coords@.0 < 16,
        0 <= coords@.1 < 256,
        0 <= coords@.2 < 16,
{
}

/// A linear index, taken apart into a local position and put together again,
/// is the same index.
pub proof fn lemma_index_round_trip(index: int)
    requires
        0 <= index < 65536,
    ensures
        0 <= index_x(index) < 16,
        0 <= index_y(index) < 256,
        0 <= index_z(index) < 16,
        linear_index(index_x(index), index_y(index), index_z(index)) == index,
{
}

/// A local position, turned into a linear index and taken apart again, is the
/// same position.
pub proof fn lemma_position_round_trip(x: int, y: int, z: int)
    requires
        0 <= x < 16,
        0 <= y < 256,
        0 <= z < 16,
    ensures
        0 <= linear_index(x, y, z) < 65536,
        index_x(linear_index(x, y, z)) == x,
        index_y(linear_index(x, y, z)) == y,
        index_z(linear_index(x, y, z)) == z,
{
}

} // verus!
