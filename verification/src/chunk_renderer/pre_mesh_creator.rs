//! The working arrays of a mesh pass: for each of the six directions, one
//! cell per block that holds the block and how far its face stretches.

use vstd::prelude::*;
use crate::block::Block;
use crate::chunk::{ChunkData, CHUNK_HEIGHT, CHUNK_SIZE, NB_BLOCKS_PER_CHUNK};
use crate::chunk_renderer::blocks_resources::blocks_ids::AIR_BLOCK;
use crate::chunk_renderer::covered_faces::{
    blocks_behind_are_known,
    culled_cells,
    outside_blocks,
    pre_mesh_block_faces_on_negative_x,
    pre_mesh_block_faces_on_negative_y,
    pre_mesh_block_faces_on_negative_z,
    pre_mesh_block_faces_on_positive_x,
    pre_mesh_block_faces_on_positive_y,
    pre_mesh_block_faces_on_positive_z,
};
use crate::chunk_renderer::greedy_mesh::{
    merge_faces_on_x_axis,
    merge_faces_on_y_axis,
    merge_faces_on_z_axis,
    merged_on_x_axis,
    merged_on_y_axis,
    merged_on_z_axis,
};
use crate::chunk_renderer::renderer::Face;

verus! {

/// Number of blocks in one slab of a chunk, the blocks that share an `x`.
pub const NB_BLOCK_ON_CHUNK_SIDE: usize = 4096;

/// Number of blocks in a chunk without one slab.
pub const NB_BLOCK_ON_CHUNK_WITHOUT_ONE_SIDE: usize = 61440;

/// How far a face stretches along the three axes, packed into sixteen bits.
///
/// Bit layout, most significant first: `XXXX YYYY YYYY ZZZZ`. A field of
/// zero stands for the whole chunk along that axis.
#[derive(Clone, Copy, Debug)]
pub struct Stretch(pub u16);

impl Stretch {
    pub open spec fn spec_get_x(&self) -> u8 {
        (self.0 / 4096) as u8
    }

    pub open spec fn spec_get_y(&self) -> u8 {
        ((self.0 / 16) % 256) as u8
    }

    pub open spec fn spec_get_z(&self) -> u8 {
        (self.0 % 16) as u8
    }

    /// The stretch that `from_xyz` packs. An `x` of sixteen or more loses its
    /// upper bits; a `z` of sixteen or more runs over into the `y` field.
    pub open spec fn spec_from_xyz(x: u8, y: u8, z: u8) -> Stretch {
        Stretch(((((x as u16) << 8) | (y as u16)) << 4) | (z as u16))
    }

    /// The extent along `x` in blocks: the field, or sixteen where it is zero.
    pub open spec fn final_x(&self) -> int {
        if self.spec_get_x() == 0 {
            16
        } else {
            self.spec_get_x() as int
        }
    }

    /// The extent along `y` in blocks: the field, or 256 where it is zero.
    pub open spec fn final_y(&self) -> int {
        if self.spec_get_y() == 0 {
            256
        } else {
            self.spec_get_y() as int
        }
    }

    /// The extent along `z` in blocks: the field, or sixteen where it is zero.
    pub open spec fn final_z(&self) -> int {
        if self.spec_get_z() == 0 {
            16
        } else {
            self.spec_get_z() as int
        }
    }

    pub fn new(data: u16) -> (stretch: Stretch)
        ensures
            stretch.0 == data,
    {
        Self(data)
    }

    pub fn from_xyz(x: u8, y: u8, z: u8) -> (stretch: Stretch)
        ensures
            stretch == Stretch::spec_from_xyz(x, y, z),
            z < 16 ==> stretch.0 == (x % 16) * 4096 + y * 16 + z,
    {
        let mut data: u16 = x as u16;
        data <<= 8;
        data |= y as u16;
        data <<= 4;
        data |= z as u16;
        proof {
            lemma_from_xyz(x, y, z);
        }
        Self(data)
    }

    #[verifier::when_used_as_spec(spec_get_x)]
    pub fn get_x(&self) -> (x: u8)
        ensures
            x == self.spec_get_x(),
            x < 16,
    {
        let bits: u16 = self.0;
        assert(bits >> 12 == bits / 4096 && bits >> 12 < 16) by (bit_vector);
        (bits >> 12) as u8
    }

    #[verifier::when_used_as_spec(spec_get_y)]
    pub fn get_y(&self) -> (y: u8)
        ensures
            y == self.spec_get_y(),
    {
        let bits: u16 = self.0;
        assert((bits << 4) >> 8 == (bits / 16) % 256 && (bits << 4) >> 8 < 256) by (bit_vector);
        ((bits << 4) >> 8) as u8
    }

    /// Replaces the `x` field by the low four bits of `x`.
    pub fn set_x(&mut self, x: u8)
        ensures
            final(self).0 == old(self).0 % 4096 + (x % 16) * 4096,
            final(self).spec_get_x() == x % 16,
            final(self).spec_get_y() == old(self).spec_get_y(),
            final(self).spec_get_z() == old(self).spec_get_z(),
    {
        let bits: u16 = self.0;
        let packed: u16 = (bits & 0x0FFF) | ((x as u16) << 12);
        assert(packed == bits % 4096 + (x % 16) * 4096 && packed / 4096 == x % 16 && (packed / 16)
            % 256 == (bits / 16) % 256 && packed % 16 == bits % 16) by (bit_vector)
            requires
                packed == (bits & 0x0FFF) | ((x as u16) << 12),
        ;
        self.0 = packed;
    }

    /// Replaces the `y` field by `y`.
    pub fn set_y(&mut self, y: u8)
        ensures
            final(self).0 == old(self).0 - old(self).spec_get_y() * 16 + y * 16,
            final(self).spec_get_x() == old(self).spec_get_x(),
            final(self).spec_get_y() == y,
            final(self).spec_get_z() == old(self).spec_get_z(),
    {
        let bits: u16 = self.0;
        let packed: u16 = (bits & 0xF00F) | ((y as u16) << 4);
        assert(packed == bits - ((bits / 16) % 256) * 16 + y * 16 && packed / 4096 == bits / 4096
            && (packed / 16) % 256 == y && packed % 16 == bits % 16) by (bit_vector)
            requires
                packed == (bits & 0xF00F) | ((y as u16) << 4),
        ;
        self.0 = packed;
    }

    /// Replaces the `z` field by `z`. A `z` of sixteen or more also sets bits
    /// of the `y` field.
    pub fn set_z(&mut self, z: u8)
        ensures
            final(self).0 == ((old(self).0 - old(self).0 % 16) as u16) | (z as u16),
            z < 16 ==> final(self).0 == old(self).0 - old(self).0 % 16 + z,
            z < 16 ==> final(self).spec_get_x() == old(self).spec_get_x(),
            z < 16 ==> final(self).spec_get_y() == old(self).spec_get_y(),
            z < 16 ==> final(self).spec_get_z() == z,
    {
        let bits: u16 = self.0;
        let wide: u16 = z as u16;
        let packed: u16 = (bits & 0xFFF0) | wide;
        assert((bits & 0xFFF0) == bits - bits % 16 && (wide < 16 ==> packed == bits - bits % 16
            + wide && packed / 4096 == bits / 4096 && (packed / 16) % 256 == (bits / 16) % 256
            && packed % 16 == wide)) by (bit_vector)
            requires
                packed == (bits & 0xFFF0) | wide,
        ;
        self.0 = packed;
    }

    #[verifier::when_used_as_spec(spec_get_z)]
    pub fn get_z(&self) -> (z: u8)
        ensures
            z == self.spec_get_z(),
            z < 16,
    {
        let bits: u16 = self.0;
        assert(bits & 0xF == bits % 16 && bits & 0xF < 16) by (bit_vector);
        (bits & 0xF) as u8
    }

    pub fn get_as_u16(&self) -> (bits: u16)
        ensures
            bits == self.0,
    {
        self.0
    }

    pub fn get_as_u32(&self) -> (bits: u32)
        ensures
            bits == self.0,
    {
        self.0 as u32
    }

    /// The extent of the face in blocks along `x`, `y` and `z`, a zero field
    /// read as the whole chunk.
    pub fn get_final_stretch(&self) -> (extent: (u16, u16, u16))
        ensures
            extent.0 == self.final_x(),
            extent.1 == self.final_y(),
            extent.2 == self.final_z(),
    {
        let stretch_x = self.get_x();
        let stretch_y = self.get_y();
        let stretch_z = self.get_z();

        let x = if stretch_x == 0 {
            CHUNK_SIZE as u16
        } else {
            stretch_x as u16
        };
        let y = if stretch_y == 0 {
            CHUNK_HEIGHT as u16
        } else {
            stretch_y as u16
        };
        let z = if stretch_z == 0 {
            CHUNK_SIZE as u16
        } else {
            stretch_z as u16
        };

        (x, y, z)
    }
}

impl Default for Stretch {
    /// One block along each axis.
    fn default() -> (stretch: Stretch)
        ensures
            stretch.0 == 0x1011,
    {
        Self(0x1011)
    }
}

/// The fields that `from_xyz` packs, where `z` is at most sixteen.
pub proof fn lemma_from_xyz(x: u8, y: u8, z: u8)
    ensures
        z < 16 ==> Stretch::spec_from_xyz(x, y, z).0 == (x % 16) * 4096 + y * 16 + z,
        z < 16 ==> Stretch::spec_from_xyz(x, y, z).spec_get_x() == x % 16,
        z < 16 ==> Stretch::spec_from_xyz(x, y, z).spec_get_y() == y,
        z < 16 ==> Stretch::spec_from_xyz(x, y, z).spec_get_z() == z,
        z == 16 && y % 2 == 1 ==> Stretch::spec_from_xyz(x, y, z).0 == (x % 16) * 4096 + y * 16,
        z == 16 && y % 2 == 1 ==> Stretch::spec_from_xyz(x, y, z).spec_get_x() == x % 16,
        z == 16 && y % 2 == 1 ==> Stretch::spec_from_xyz(x, y, z).spec_get_y() == y,
        z == 16 && y % 2 == 1 ==> Stretch::spec_from_xyz(x, y, z).spec_get_z() == 0,
{
    let bits = ((((x as u16) << 8) | (y as u16)) << 4) | (z as u16);
    assert(z < 16 ==> bits == (x % 16) * 4096 + y * 16 + z && bits / 4096 == x % 16 && (bits / 16)
        % 256 == y && bits % 16 == z) by (bit_vector)
        requires
            bits == ((((x as u16) << 8) | (y as u16)) << 4) | (z as u16),
    ;
    assert(z == 16 && y % 2 == 1 ==> bits == (x % 16) * 4096 + y * 16 && bits / 4096 == x % 16 && (
    bits / 16) % 256 == y && bits % 16 == 0) by (bit_vector)
        requires
            bits == ((((x as u16) << 8) | (y as u16)) << 4) | (z as u16),
    ;
}

/// One cell of a working array: a block in the upper sixteen bits, the
/// stretch of its face in the lower sixteen.
#[derive(Clone, Copy, Debug)]
pub struct BlockPreMesh(pub u32);

impl Default for BlockPreMesh {
    fn default() -> (cell: BlockPreMesh)
        ensures
            cell.0 == 0,
    {
        Self(0)
    }
}

impl BlockPreMesh {
    pub open spec fn spec_get_block(&self) -> Block {
        Block((self.0 / 65536) as u16)
    }

    pub open spec fn spec_get_stretch(&self) -> Stretch {
        Stretch((self.0 % 65536) as u16)
    }

    /// The cell that holds `block` and `stretch`.
    pub open spec fn spec_new(block: Block, stretch: Stretch) -> BlockPreMesh {
        BlockPreMesh((block.0 * 65536 + stretch.0) as u32)
    }

    /// The same block with a stretch of zero: a face that is not drawn.
    pub open spec fn hidden(&self) -> BlockPreMesh {
        BlockPreMesh::spec_new(self.spec_get_block(), Stretch(0))
    }

    /// Whether the face is drawn: whether any bit of the stretch is set.
    pub open spec fn spec_will_be_rendered(&self) -> bool {
        self.spec_get_stretch().0 != 0
    }

    pub fn new(block: Block, stretch: Stretch) -> (cell: BlockPreMesh)
        ensures
            cell == BlockPreMesh::spec_new(block, stretch),
            cell.spec_get_block() == block,
            cell.spec_get_stretch() == stretch,
    {
        let block_data = block.get_as_u16();
        let stretch_data = stretch.get_as_u32();
        assert((((block_data as u32) << 16) | stretch_data) == block_data * 65536 + stretch_data)
            by (bit_vector)
            requires
                stretch_data < 65536,
        ;
        let first_part: u32 = (block_data as u32) << 16;
        let final_data: u32 = first_part | stretch_data;
        BlockPreMesh(final_data)
    }

    #[verifier::when_used_as_spec(spec_get_block)]
    pub fn get_block(&self) -> (block: Block)
        ensures
            block == self.spec_get_block(),
    {
        let bits: u32 = self.0;
        assert(bits >> 16 == bits / 65536 && bits >> 16 < 65536) by (bit_vector);
        Block((bits >> 16) as u16)
    }

    #[verifier::when_used_as_spec(spec_get_stretch)]
    pub fn get_stretch(&self) -> (stretch: Stretch)
        ensures
            stretch == self.spec_get_stretch(),
    {
        let bits: u32 = self.0;
        assert(bits & 0x0000_FFFF == bits % 65536) by (bit_vector);
        Stretch((bits & 0x0000_FFFF) as u16)
    }

    /// Sets the stretch to zero and keeps the block.
    pub fn should_not_be_rendered(&mut self)
        ensures
            *final(self) == old(self).hidden(),
            final(self).spec_get_block() == old(self).spec_get_block(),
            !final(self).spec_will_be_rendered(),
    {
        let bits: u32 = self.0;
        assert(bits & 0xFFFF_0000 == (bits / 65536) * 65536) by (bit_vector);
        self.0 = bits & 0xFFFF_0000;
    }

    #[verifier::when_used_as_spec(spec_will_be_rendered)]
    pub fn will_be_rendered(&self) -> (rendered: bool)
        ensures
            rendered == self.spec_will_be_rendered(),
    {
        let bits: u32 = self.0;
        assert(bits & 0x0000_FFFF == bits % 65536) by (bit_vector);
        (bits & 0x0000_FFFF) != 0
    }
}

/// A cell is the block and the stretch that it holds, and holds what it was
/// made of.
pub proof fn lemma_cell_parts(block: Block, stretch: Stretch, cell: BlockPreMesh)
    ensures
        BlockPreMesh::spec_new(block, stretch).spec_get_block() == block,
        BlockPreMesh::spec_new(block, stretch).spec_get_stretch() == stretch,
        BlockPreMesh::spec_new(cell.spec_get_block(), cell.spec_get_stretch()) == cell,
{
}

/// The cell that a block starts a mesh pass with: a face of one block, or no
/// face for air.
pub open spec fn initial_cell(block: Block) -> BlockPreMesh {
    BlockPreMesh::spec_new(
        block,
        if block.spec_get_id() == AIR_BLOCK {
            Stretch(0)
        } else {
            Stretch(0x1011)
        },
    )
}

/// The working array that the blocks of a chunk start a mesh pass with.
pub open spec fn initial_cells(blocks: Seq<Block>) -> Seq<BlockPreMesh> {
    Seq::new(NB_BLOCKS_PER_CHUNK as nat, |i: int| initial_cell(blocks[i]))
}

/// The working array of one direction: one cell per block of the chunk, in
/// the linear order of the blocks.
pub struct ChunkPreMeshOneDirection(Vec<BlockPreMesh>);

impl View for ChunkPreMeshOneDirection {
    type V = Seq<BlockPreMesh>;

    closed spec fn view(&self) -> Seq<BlockPreMesh> {
        self.0@
    }
}

impl Clone for ChunkPreMeshOneDirection {
    fn clone(&self) -> (copy: ChunkPreMeshOneDirection)
        ensures
            copy@ == self@,
    {
        let cells = self.0.clone();
        assert(cells@ =~= self.0@);
        Self(cells)
    }
}

impl ChunkPreMeshOneDirection {
    /// Whether the array holds exactly one cell per block of a chunk. Every
    /// array made by `new` does, whatever is done to it afterwards.
    pub open spec fn is_full(&self) -> bool {
        self@.len() == NB_BLOCKS_PER_CHUNK
    }

    /// The array that a mesh pass starts with, from the first 65536 blocks of
    /// `chunk_data`.
    pub fn new(chunk_data: &[Block]) -> (pre_mesh: ChunkPreMeshOneDirection)
        requires
            chunk_data@.len() >= NB_BLOCKS_PER_CHUNK,
        ensures
            pre_mesh@ == initial_cells(chunk_data@),
            pre_mesh.is_full(),
    {
        let mut blocks_pre_mesh_data: Vec<BlockPreMesh> = Vec::with_capacity(NB_BLOCKS_PER_CHUNK);

        for i in 0..NB_BLOCKS_PER_CHUNK
            invariant
                chunk_data@.len() >= NB_BLOCKS_PER_CHUNK,
                blocks_pre_mesh_data@.len() == i,
                forall|j: int|
                    0 <= j < i ==> blocks_pre_mesh_data@[j] == initial_cell(chunk_data@[j]),
        {
            let block = chunk_data[i];

            let mut stretch = Stretch::default();

            if block.get_id() == AIR_BLOCK {
                stretch.0 = 0;
            }

            blocks_pre_mesh_data.push(BlockPreMesh::new(block, stretch));
        }

        assert(blocks_pre_mesh_data@ =~= initial_cells(chunk_data@));
        Self(blocks_pre_mesh_data)
    }

    pub fn as_slice(&self) -> (cells: &[BlockPreMesh])
        ensures
            cells@ == self@,
    {
        self.0.as_slice()
    }

    /// The cells, open to writing. The array holds what the slice holds when
    /// the borrow ends.
    pub fn as_mut_slice(&mut self) -> (cells: &mut [BlockPreMesh])
        ensures
            cells@ == old(self)@,
            final(cells)@ == final(self)@,
    {
        self.0.as_mut_slice()
    }

    pub fn get_pre_mesh(&self, pre_mesh_index: usize) -> (cell: BlockPreMesh)
        requires
            pre_mesh_index < self@.len(),
        ensures
            cell == self@[pre_mesh_index as int],
    {
        self.0[pre_mesh_index]
    }

    pub fn set_pre_mesh(&mut self, pre_mesh_index: usize, value: BlockPreMesh)
        requires
            pre_mesh_index < old(self)@.len(),
        ensures
            final(self)@ == old(self)@.update(pre_mesh_index as int, value),
    {
        self.0[pre_mesh_index] = value;
    }

    /// Hides the face of one cell and keeps its block.
    pub fn should_not_be_rendered(&mut self, pre_mesh_index: usize)
        requires
            pre_mesh_index < old(self)@.len(),
        ensures
            final(self)@ == old(self)@.update(
                pre_mesh_index as int,
                old(self)@[pre_mesh_index as int].hidden(),
            ),
    {
        self.0[pre_mesh_index].should_not_be_rendered();
    }
}

/// Copies of the blocks of the four chunks beside a chunk, each `None` where
/// that chunk is not loaded.
pub struct NeighborChunks {
    pub positive_x: Option<ChunkData>,
    pub negative_x: Option<ChunkData>,
    pub positive_z: Option<ChunkData>,
    pub negative_z: Option<ChunkData>,
}

impl NeighborChunks {
    /// Whether each neighbour that is loaded holds the blocks of one chunk.
    pub open spec fn is_full(&self) -> bool {
        &&& self.positive_x matches Some(chunk_data) ==> chunk_data.is_full()
        &&& self.negative_x matches Some(chunk_data) ==> chunk_data.is_full()
        &&& self.positive_z matches Some(chunk_data) ==> chunk_data.is_full()
        &&& self.negative_z matches Some(chunk_data) ==> chunk_data.is_full()
    }
}

/// The six working arrays of one mesh pass.
pub struct ChunkPreMesh {
    pub positive_x: ChunkPreMeshOneDirection,
    pub negative_x: ChunkPreMeshOneDirection,
    pub positive_y: ChunkPreMeshOneDirection,
    pub negative_y: ChunkPreMeshOneDirection,
    pub positive_z: ChunkPreMeshOneDirection,
    pub negative_z: ChunkPreMeshOneDirection,
}

impl ChunkPreMesh {
    /// Whether each of the six arrays holds one cell per block.
    pub open spec fn is_full(&self) -> bool {
        &&& self.positive_x.is_full()
        &&& self.negative_x.is_full()
        &&& self.positive_y.is_full()
        &&& self.negative_y.is_full()
        &&& self.positive_z.is_full()
        &&& self.negative_z.is_full()
    }

    /// Six copies of the array that a mesh pass starts with.
    pub fn new(chunk_data: &[Block]) -> (pre_mesh: ChunkPreMesh)
        requires
            chunk_data@.len() >= NB_BLOCKS_PER_CHUNK,
        ensures
            pre_mesh.positive_x@ == initial_cells(chunk_data@),
            pre_mesh.negative_x@ == initial_cells(chunk_data@),
            pre_mesh.positive_y@ == initial_cells(chunk_data@),
            pre_mesh.negative_y@ == initial_cells(chunk_data@),
            pre_mesh.positive_z@ == initial_cells(chunk_data@),
            pre_mesh.negative_z@ == initial_cells(chunk_data@),
            pre_mesh.is_full(),
    {
        let positive_x = ChunkPreMeshOneDirection::new(chunk_data);
        let negative_x = positive_x.clone();
        let positive_y = positive_x.clone();
        let negative_y = positive_x.clone();
        let positive_z = positive_x.clone();
        let negative_z = positive_x.clone();

        Self { positive_x, negative_x, positive_y, negative_y, positive_z, negative_z }
    }

    /// Whether the catalogue knows every block that culling looks at, in
    /// each of the six directions.
    pub open spec fn can_be_culled(&self, neighbor_chunks: &NeighborChunks) -> bool {
        &&& blocks_behind_are_known(
            self.positive_x@,
            outside_blocks(neighbor_chunks.positive_x),
            Face::PositiveX,
        )
        &&& blocks_behind_are_known(
            self.negative_x@,
            outside_blocks(neighbor_chunks.negative_x),
            Face::NegativeX,
        )
        &&& blocks_behind_are_known(self.positive_y@, None, Face::PositiveY)
        &&& blocks_behind_are_known(self.negative_y@, None, Face::NegativeY)
        &&& blocks_behind_are_known(
            self.positive_z@,
            outside_blocks(neighbor_chunks.positive_z),
            Face::PositiveZ,
        )
        &&& blocks_behind_are_known(
            self.negative_z@,
            outside_blocks(neighbor_chunks.negative_z),
            Face::NegativeZ,
        )
    }

    /// Whether `after` is `self` with the covered faces hidden, in each of
    /// the six directions.
    pub open spec fn culled_to(
        &self,
        neighbor_chunks: &NeighborChunks,
        after: &ChunkPreMesh,
    ) -> bool {
        &&& after.positive_x@ == culled_cells(
            self.positive_x@,
            outside_blocks(neighbor_chunks.positive_x),
            Face::PositiveX,
        )
        &&& after.negative_x@ == culled_cells(
            self.negative_x@,
            outside_blocks(neighbor_chunks.negative_x),
            Face::NegativeX,
        )
        &&& after.positive_y@ == culled_cells(self.positive_y@, None, Face::PositiveY)
        &&& after.negative_y@ == culled_cells(self.negative_y@, None, Face::NegativeY)
        &&& after.positive_z@ == culled_cells(
            self.positive_z@,
            outside_blocks(neighbor_chunks.positive_z),
            Face::PositiveZ,
        )
        &&& after.negative_z@ == culled_cells(
            self.negative_z@,
            outside_blocks(neighbor_chunks.negative_z),
            Face::NegativeZ,
        )
    }

    /// Whether `after` is `self` with the faces of each direction merged.
    pub open spec fn merged_to(&self, after: &ChunkPreMesh) -> bool {
        &&& after.positive_x@ == merged_on_x_axis(self.positive_x@)
        &&& after.negative_x@ == merged_on_x_axis(self.negative_x@)
        &&& after.positive_y@ == merged_on_y_axis(self.positive_y@)
        &&& after.negative_y@ == merged_on_y_axis(self.negative_y@)
        &&& after.positive_z@ == merged_on_z_axis(self.positive_z@)
        &&& after.negative_z@ == merged_on_z_axis(self.negative_z@)
    }

    /// Whether `after` is `self` with the covered faces hidden and the faces
    /// that are left merged, in each of the six directions.
    pub open spec fn optimised_to(
        &self,
        neighbor_chunks: &NeighborChunks,
        after: &ChunkPreMesh,
    ) -> bool {
        &&& after.positive_x@ == merged_on_x_axis(
            culled_cells(
                self.positive_x@,
                outside_blocks(neighbor_chunks.positive_x),
                Face::PositiveX,
            ),
        )
        &&& after.negative_x@ == merged_on_x_axis(
            culled_cells(
                self.negative_x@,
                outside_blocks(neighbor_chunks.negative_x),
                Face::NegativeX,
            ),
        )
        &&& after.positive_y@ == merged_on_y_axis(
            culled_cells(self.positive_y@, None, Face::PositiveY),
        )
        &&& after.negative_y@ == merged_on_y_axis(
            culled_cells(self.negative_y@, None, Face::NegativeY),
        )
        &&& after.positive_z@ == merged_on_z_axis(
            culled_cells(
                self.positive_z@,
                outside_blocks(neighbor_chunks.positive_z),
                Face::PositiveZ,
            ),
        )
        &&& after.negative_z@ == merged_on_z_axis(
            culled_cells(
                self.negative_z@,
                outside_blocks(neighbor_chunks.negative_z),
                Face::NegativeZ,
            ),
        )
    }

    /// Hides the covered faces, then merges the faces that are left.
    pub fn optimise(&mut self, neighbor_chunks: &NeighborChunks)
        requires
            old(self).is_full(),
            neighbor_chunks.is_full(),
            old(self).can_be_culled(neighbor_chunks),
        ensures
            final(self).is_full(),
            old(self).optimised_to(neighbor_chunks, final(self)),
    {
        self.hide_covered_faces(neighbor_chunks);
        self.apply_greedy_meshing();
    }

    /// Hides, in each direction, the faces that the block behind them covers.
    pub fn hide_covered_faces(&mut self, neighbor_chunks: &NeighborChunks)
        requires
            old(self).is_full(),
            neighbor_chunks.is_full(),
            old(self).can_be_culled(neighbor_chunks),
        ensures
            final(self).is_full(),
            old(self).culled_to(neighbor_chunks, final(self)),
    {
        pre_mesh_block_faces_on_positive_x(&mut self.positive_x, &neighbor_chunks.positive_x);
        pre_mesh_block_faces_on_negative_x(&mut self.negative_x, &neighbor_chunks.negative_x);
        pre_mesh_block_faces_on_positive_y(&mut self.positive_y);
        pre_mesh_block_faces_on_negative_y(&mut self.negative_y);
        pre_mesh_block_faces_on_positive_z(&mut self.positive_z, &neighbor_chunks.positive_z);
        pre_mesh_block_faces_on_negative_z(&mut self.negative_z, &neighbor_chunks.negative_z);
    }

    /// Merges, in each direction, runs of equal faces into one face each.
    pub fn apply_greedy_meshing(&mut self)
        requires
            old(self).is_full(),
        ensures
            final(self).is_full(),
            old(self).merged_to(final(self)),
    {
        merge_faces_on_x_axis(&mut self.positive_x, &mut self.negative_x);
        merge_faces_on_y_axis(&mut self.positive_y, &mut self.negative_y);
        merge_faces_on_z_axis(&mut self.positive_z, &mut self.negative_z);
    }
}

} // verus!
