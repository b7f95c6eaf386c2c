//! Chunk storage: a fixed block of 16 x 256 x 16 packed blocks.

use vstd::prelude::*;
use crate::block::Block;
use crate::coordinates::chunk_coordinates::ChunkCoordinates;

verus! {

/// Width and depth of a chunk, in blocks.
pub const CHUNK_SIZE: usize = 16;

/// Height of a chunk, in blocks.
pub const CHUNK_HEIGHT: usize = 256;

/// Number of blocks a chunk holds.
pub const NB_BLOCKS_PER_CHUNK: usize = 65536;

/// The blocks of one chunk in linear order: the block at local `(x, y, z)`
/// is stored at index `x * 4096 + y * 16 + z`.
pub struct ChunkData(Vec<Block>);

impl View for ChunkData {
    type V = Seq<Block>;

    closed spec fn view(&self) -> Seq<Block> {
        self.0@
    }
}

impl Default for ChunkData {
    /// A chunk of air.
    fn default() -> (data: ChunkData)
        ensures
            data@.len() == NB_BLOCKS_PER_CHUNK,
            forall|i: int| 0 <= i < NB_BLOCKS_PER_CHUNK ==> data@[i] == Block(0),
    {
        let chunk_data = vec![Block::default(); NB_BLOCKS_PER_CHUNK];
        Self(chunk_data)
    }
}

impl Clone for ChunkData {
    fn clone(&self) -> (data: ChunkData)
        ensures
            data@ == self@,
    {
        let blocks = self.0.clone();
        assert(blocks@ =~= self.0@);
        Self(blocks)
    }
}

impl ChunkData {
    /// Whether the storage holds exactly the blocks of one chunk. Every value
    /// made by `default` or `clone` and changed through `as_mut_slice` does.
    pub open spec fn is_full(&self) -> bool {
        self@.len() == NB_BLOCKS_PER_CHUNK
    }

    pub fn get_block(&self, index: usize) -> (block: Block)
        requires
            index < self@.len(),
        ensures
            block == self@[index as int],
    {
        self.0[index]
    }

    pub fn as_slice(&self) -> (blocks: &[Block])
        ensures
            blocks@ == self@,
    {
        self.0.as_slice()
    }

    /// The blocks, open to writing. The chunk holds what the slice holds
    /// when the borrow ends.
    pub fn as_mut_slice(&mut self) -> (blocks: &mut [Block])
        ensures
            blocks@ == old(self)@,
            final(blocks)@ == final(self)@,
    {
        self.0.as_mut_slice()
    }
}

/// A chunk: its origin in the world and its blocks.
pub struct Chunk {
    coords: ChunkCoordinates,
    pub blocks: ChunkData,
}

impl View for Chunk {
    type V = Seq<Block>;

    /// The blocks of the chunk, in linear order.
    closed spec fn view(&self) -> Seq<Block> {
        self.blocks@
    }
}

impl Chunk {
    /// The origin of the chunk.
    pub closed spec fn spec_coords(&self) -> ChunkCoordinates {
        self.coords
    }

    /// A chunk of air with its origin at `(x, y, z)`.
    pub fn new(x: i32, y: i32, z: i32) -> (chunk: Chunk)
        ensures
            chunk.spec_coords()@ == (x, y, z),
            chunk@.len() == NB_BLOCKS_PER_CHUNK,
            forall|i: int| 0 <= i < NB_BLOCKS_PER_CHUNK ==> chunk@[i] == Block(0),
    {
        Chunk { coords: ChunkCoordinates::new(x, y, z), blocks: ChunkData::default() }
    }

    #[verifier::when_used_as_spec(spec_coords)]
    pub fn get_coords(&self) -> (coords: ChunkCoordinates)
        ensures
            coords == self.spec_coords(),
    {
        self.coords
    }

    /// The storage of the blocks.
    pub fn get_blocks(&self) -> (blocks: &ChunkData)
        ensures
            blocks@ == self@,
    {
        &self.blocks
    }

    pub fn as_slice(&self) -> (blocks: &[Block])
        ensures
            blocks@ == self@,
    {
        self.blocks.as_slice()
    }

    /// The blocks, open to writing. The chunk holds what the slice holds
    /// when the borrow ends, at the same origin.
    pub fn as_mut_slice(&mut self) -> (blocks: &mut [Block])
        ensures
            blocks@ == old(self)@,
            final(blocks)@ == final(self)@,
            final(self).spec_coords() == old(self).spec_coords(),
    {
        self.blocks.as_mut_slice()
    }

    pub fn get_block(&self, index: usize) -> (block: Block)
        requires
            index < self@.len(),
        ensures
            block == self@[index as int],
    {
        self.blocks.get_block(index)
    }
}

impl Default for Chunk {
    /// A chunk of air at the origin of the world.
    fn default() -> (chunk: Chunk)
        ensures
            chunk.spec_coords()@ == (0i32, 0i32, 0i32),
            chunk@.len() == NB_BLOCKS_PER_CHUNK,
            forall|i: int| 0 <= i < NB_BLOCKS_PER_CHUNK ==> chunk@[i] == Block(0),
    {
        Chunk::new(0, 0, 0)
    }
}

} // verus!
