//! Face culling: a face is hidden where the block behind it blocks the view,
//! or is the very same block.
//!
//! Each direction has its own working array. The block behind a face is the
//! next block of the chunk in that direction or, at the edge of the chunk in
//! `x` and `z`, the first block of the chunk beside it, if that chunk is
//! loaded. Above and below there is no chunk.

use vstd::prelude::*;
use crate::block::Block;
use crate::chunk::{ChunkData, CHUNK_SIZE, NB_BLOCKS_PER_CHUNK};
use crate::chunk_renderer::blocks_resources::{is_known_block, spec_block_is_transparent};
use crate::chunk_renderer::pre_mesh_creator::{
    BlockPreMesh,
    ChunkPreMeshOneDirection,
    NB_BLOCK_ON_CHUNK_SIDE,
    NB_BLOCK_ON_CHUNK_WITHOUT_ONE_SIDE,
};
use crate::chunk_renderer::renderer::Face;
use crate::chunk_renderer::resource_extractor::block_is_transparent;

verus! {

/// Whether the face between a block and the block behind it is drawn: the
/// block behind lets light through and is not the same block.
pub open spec fn spec_face_should_be_rendered(current_block: Block, neighbor_block: Block) -> bool {
    spec_block_is_transparent(neighbor_block.spec_get_id()) && current_block != neighbor_block
}

/// The blocks of a neighbour chunk, if it is loaded.
pub open spec fn outside_blocks(neighbor_chunk: Option<ChunkData>) -> Option<Seq<Block>> {
    match neighbor_chunk {
        Some(chunk_data) => Some(chunk_data@),
        None => None,
    }
}

/// The block behind the face of cell `i` that looks in `direction`, if there
/// is one: a block of the same chunk, or one of the chunk beside it.
pub open spec fn block_behind(
    cells: Seq<BlockPreMesh>,
    outside: Option<Seq<Block>>,
    direction: Face,
    i: int,
) -> Option<Block> {
    match direction {
        Face::PositiveX => if i < 61440 {
            Some(cells[i + 4096].spec_get_block())
        } else {
            match outside {
                Some(blocks) => Some(blocks[i - 61440]),
                None => None,
            }
        },
        Face::NegativeX => if i >= 4096 {
            Some(cells[i - 4096].spec_get_block())
        } else {
            match outside {
                Some(blocks) => Some(blocks[i + 61440]),
                None => None,
            }
        },
        Face::PositiveY => if i % 4096 < 4080 {
            Some(cells[i + 16].spec_get_block())
        } else {
            None
        },
        Face::NegativeY => if i % 4096 >= 16 {
            Some(cells[i - 16].spec_get_block())
        } else {
            None
        },
        Face::PositiveZ => if i % 16 != 15 {
            Some(cells[i + 1].spec_get_block())
        } else {
            match outside {
                Some(blocks) => Some(blocks[i - 15]),
                None => None,
            }
        },
        Face::NegativeZ => if i % 16 != 0 {
            Some(cells[i - 1].spec_get_block())
        } else {
            match outside {
                Some(blocks) => Some(blocks[i + 15]),
                None => None,
            }
        },
    }
}

/// Cell `i` after culling in `direction`: hidden where a block behind it
/// covers its face, unchanged otherwise.
pub open spec fn culled_cell(
    cells: Seq<BlockPreMesh>,
    outside: Option<Seq<Block>>,
    direction: Face,
    i: int,
) -> BlockPreMesh {
    match block_behind(cells, outside, direction, i) {
        Some(neighbor_block) => if spec_face_should_be_rendered(
            cells[i].spec_get_block(),
            neighbor_block,
        ) {
            cells[i]
        } else {
            cells[i].hidden()
        },
        None => cells[i],
    }
}

/// The working array of `direction` after culling.
pub open spec fn culled_cells(
    cells: Seq<BlockPreMesh>,
    outside: Option<Seq<Block>>,
    direction: Face,
) -> Seq<BlockPreMesh> {
    Seq::new(cells.len(), |i: int| culled_cell(cells, outside, direction, i))
}

/// Whether the catalogue knows every block that culling in `direction` looks
/// behind a face at.
pub open spec fn blocks_behind_are_known(
    cells: Seq<BlockPreMesh>,
    outside: Option<Seq<Block>>,
    direction: Face,
) -> bool {
    forall|i: int|
        0 <= i < NB_BLOCKS_PER_CHUNK ==> match #[trigger] block_behind(
            cells,
            outside,
            direction,
            i,
        ) {
            Some(neighbor_block) => is_known_block(neighbor_block.spec_get_id()),
            None => true,
        }
}

/// Whether the face between `current_block` and `neighbor_block` behind it is
/// drawn.
pub fn face_should_be_rendered(current_block: &Block, neighbor_block: &Block) -> (rendered: bool)
    requires
        is_known_block(neighbor_block.spec_get_id()),
    ensures
        rendered == spec_face_should_be_rendered(*current_block, *neighbor_block),
{
    if !block_is_transparent(neighbor_block.get_id()) {
        return false;
    }
    if *current_block == *neighbor_block {
        return false;
    }
    true
}

/// A face between two equal blocks is never drawn, whatever the block.
pub proof fn lemma_face_between_equal_blocks(block: Block)
    ensures
        !spec_face_should_be_rendered(block, block),
{
}

/// In each of the six directions, a cell whose block is the same as the
/// block behind it is hidden by culling.
pub proof fn lemma_equal_neighbor_is_culled(
    cells: Seq<BlockPreMesh>,
    outside: Option<Seq<Block>>,
    direction: Face,
    i: int,
)
    requires
        block_behind(cells, outside, direction, i) == Some(cells[i].spec_get_block()),
    ensures
        culled_cell(cells, outside, direction, i) == cells[i].hidden(),
        !culled_cell(cells, outside, direction, i).spec_will_be_rendered(),
{
}

/// Hides cell `current_index` if `neighbor_block` behind it covers its face.
fn cull_against(
    pre_mesh_data: &mut ChunkPreMeshOneDirection,
    current_index: usize,
    neighbor_block: Block,
)
    requires
        current_index < old(pre_mesh_data)@.len(),
        is_known_block(neighbor_block.spec_get_id()),
    ensures
        final(pre_mesh_data)@ == old(pre_mesh_data)@.update(
            current_index as int,
            if spec_face_should_be_rendered(
                old(pre_mesh_data)@[current_index as int].spec_get_block(),
                neighbor_block,
            ) {
                old(pre_mesh_data)@[current_index as int]
            } else {
                old(pre_mesh_data)@[current_index as int].hidden()
            },
        ),
{
    let current_block = pre_mesh_data.get_pre_mesh(current_index).get_block();
    if !face_should_be_rendered(&current_block, &neighbor_block) {
        pre_mesh_data.should_not_be_rendered(current_index);
    } else {
        assert(pre_mesh_data@ =~= pre_mesh_data@.update(
            current_index as int,
            pre_mesh_data@[current_index as int],
        ));
    }
}

/// Whether `cells` is `start` with the cells that `done` holds of culled in
/// `direction` and the others untouched.
pub open spec fn culled_where(
    cells: Seq<BlockPreMesh>,
    start: Seq<BlockPreMesh>,
    outside: Option<Seq<Block>>,
    direction: Face,
    done: spec_fn(int) -> bool,
) -> bool {
    &&& cells.len() == NB_BLOCKS_PER_CHUNK
    &&& start.len() == NB_BLOCKS_PER_CHUNK
    &&& forall|j: int|
        0 <= j < NB_BLOCKS_PER_CHUNK ==> #[trigger] cells[j] == if done(j) {
            culled_cell(start, outside, direction, j)
        } else {
            start[j]
        }
}

/// Culling keeps the block of every cell.
pub proof fn lemma_culled_keeps_block(
    cells: Seq<BlockPreMesh>,
    outside: Option<Seq<Block>>,
    direction: Face,
    i: int,
)
    ensures
        culled_cell(cells, outside, direction, i).spec_get_block() == cells[i].spec_get_block(),
        cells[i].hidden().spec_get_block() == cells[i].spec_get_block(),
{
}

/// Culls the last slab in `x` against the first slab of the chunk beyond it.
fn pre_mesh_positive_x_chunk_side(
    current_chunk: &mut ChunkPreMeshOneDirection,
    neighbor_chunk: &ChunkData,
)
    requires
        old(current_chunk).is_full(),
        neighbor_chunk.is_full(),
        blocks_behind_are_known(old(current_chunk)@, Some(neighbor_chunk@), Face::PositiveX),
    ensures
        culled_where(
            final(current_chunk)@,
            old(current_chunk)@,
            Some(neighbor_chunk@),
            Face::PositiveX,
            |j: int| j >= 61440,
        ),
{
    let ghost start = current_chunk@;
    let ghost outside = Some(neighbor_chunk@);
    for i in 0..NB_BLOCK_ON_CHUNK_SIDE
        invariant
            neighbor_chunk.is_full(),
            outside == Some(neighbor_chunk@),
            blocks_behind_are_known(start, outside, Face::PositiveX),
            culled_where(
                current_chunk@,
                start,
                outside,
                Face::PositiveX,
                |j: int| (j >= 61440) && j - 61440 < i,
            ),
    {
        let neighbor_index = i;
        let neighbor_block = neighbor_chunk.get_block(neighbor_index);
        let current_index = NB_BLOCK_ON_CHUNK_WITHOUT_ONE_SIDE + i;
        assert(block_behind(start, outside, Face::PositiveX, current_index as int) == Some(
            neighbor_block,
        ));
        cull_against(current_chunk, current_index, neighbor_block);
    }
}

/// Culls the first slab in `x` against the last slab of the chunk before it.
fn pre_mesh_negative_x_chunk_side(
    current_chunk: &mut ChunkPreMeshOneDirection,
    neighbor_chunk: &ChunkData,
)
    requires
        old(current_chunk).is_full(),
        neighbor_chunk.is_full(),
        blocks_behind_are_known(old(current_chunk)@, Some(neighbor_chunk@), Face::NegativeX),
    ensures
        culled_where(
            final(current_chunk)@,
            old(current_chunk)@,
            Some(neighbor_chunk@),
            Face::NegativeX,
            |j: int| j < 4096,
        ),
{
    let ghost start = current_chunk@;
    let ghost outside = Some(neighbor_chunk@);
    for i in 0..NB_BLOCK_ON_CHUNK_SIDE
        invariant
            neighbor_chunk.is_full(),
            outside == Some(neighbor_chunk@),
            blocks_behind_are_known(start, outside, Face::NegativeX),
            culled_where(
                current_chunk@,
                start,
                outside,
                Face::NegativeX,
                |j: int| (j < 4096) && j < i,
            ),
    {
        let neighbor_index = i + NB_BLOCK_ON_CHUNK_WITHOUT_ONE_SIDE;
        let neighbor_block = neighbor_chunk.get_block(neighbor_index);
        let current_index = i;
        assert(block_behind(start, outside, Face::NegativeX, current_index as int) == Some(
            neighbor_block,
        ));
        cull_against(current_chunk, current_index, neighbor_block);
    }
}

/// Culls the last row in `z` against the first row of the chunk beyond it.
fn pre_mesh_positive_z_chunk_side(
    current_chunk: &mut ChunkPreMeshOneDirection,
    neighbor_chunk: &ChunkData,
)
    requires
        old(current_chunk).is_full(),
        neighbor_chunk.is_full(),
        blocks_behind_are_known(old(current_chunk)@, Some(neighbor_chunk@), Face::PositiveZ),
    ensures
        culled_where(
            final(current_chunk)@,
            old(current_chunk)@,
            Some(neighbor_chunk@),
            Face::PositiveZ,
            |j: int| j % 16 == 15,
        ),
{
    let ghost start = current_chunk@;
    let ghost outside = Some(neighbor_chunk@);
    for i in 0..NB_BLOCK_ON_CHUNK_SIDE
        invariant
            neighbor_chunk.is_full(),
            outside == Some(neighbor_chunk@),
            blocks_behind_are_known(start, outside, Face::PositiveZ),
            culled_where(
                current_chunk@,
                start,
                outside,
                Face::PositiveZ,
                |j: int| (j % 16 == 15) && j / 16 < i,
            ),
    {
        let neighbor_index = i * CHUNK_SIZE;
        let neighbor_block = neighbor_chunk.get_block(neighbor_index);
        let current_index = i * CHUNK_SIZE + CHUNK_SIZE - 1;
        assert(block_behind(start, outside, Face::PositiveZ, current_index as int) == Some(
            neighbor_block,
        ));
        cull_against(current_chunk, current_index, neighbor_block);
    }
}

/// Culls the first row in `z` against the last row of the chunk before it.
fn pre_mesh_negative_z_chunk_side(
    current_chunk: &mut ChunkPreMeshOneDirection,
    neighbor_chunk: &ChunkData,
)
    requires
        old(current_chunk).is_full(),
        neighbor_chunk.is_full(),
        blocks_behind_are_known(old(current_chunk)@, Some(neighbor_chunk@), Face::NegativeZ),
    ensures
        culled_where(
            final(current_chunk)@,
            old(current_chunk)@,
            Some(neighbor_chunk@),
            Face::NegativeZ,
            |j: int| j % 16 == 0,
        ),
{
    let ghost start = current_chunk@;
    let ghost outside = Some(neighbor_chunk@);
    for i in 0..NB_BLOCK_ON_CHUNK_SIDE
        invariant
            neighbor_chunk.is_full(),
            outside == Some(neighbor_chunk@),
            blocks_behind_are_known(start, outside, Face::NegativeZ),
            culled_where(
                current_chunk@,
                start,
                outside,
                Face::NegativeZ,
                |j: int| (j % 16 == 0) && j / 16 < i,
            ),
    {
        let neighbor_index = i * CHUNK_SIZE + CHUNK_SIZE - 1;
        let neighbor_block = neighbor_chunk.get_block(neighbor_index);
        let current_index = i * CHUNK_SIZE;
        assert(block_behind(start, outside, Face::NegativeZ, current_index as int) == Some(
            neighbor_block,
        ));
        cull_against(current_chunk, current_index, neighbor_block);
    }
}

/// Hides each face that looks towards `+x` and is covered by the block beyond it.
pub fn pre_mesh_block_faces_on_positive_x(
    pre_mesh_data: &mut ChunkPreMeshOneDirection,
    neighbor_chunk_on_positive_x: &Option<ChunkData>,
)
    requires
        old(pre_mesh_data).is_full(),
        neighbor_chunk_on_positive_x matches Some(chunk_data) ==> chunk_data.is_full(),
        blocks_behind_are_known(
            old(pre_mesh_data)@,
            outside_blocks(*neighbor_chunk_on_positive_x),
            Face::PositiveX,
        ),
    ensures
        final(pre_mesh_data)@ == culled_cells(
            old(pre_mesh_data)@,
            outside_blocks(*neighbor_chunk_on_positive_x),
            Face::PositiveX,
        ),
{
    let ghost start = pre_mesh_data@;
    let ghost outside = outside_blocks(*neighbor_chunk_on_positive_x);
    match neighbor_chunk_on_positive_x {
        Some(chunk_data) => pre_mesh_positive_x_chunk_side(pre_mesh_data, chunk_data),
        None => (),
    }

    let array_offset = NB_BLOCK_ON_CHUNK_SIDE;

    for i in 0..NB_BLOCK_ON_CHUNK_WITHOUT_ONE_SIDE
        invariant
            array_offset == NB_BLOCK_ON_CHUNK_SIDE,
            blocks_behind_are_known(start, outside, Face::PositiveX),
            culled_where(
                pre_mesh_data@,
                start,
                outside,
                Face::PositiveX,
                |j: int| j >= 61440 || j < i,
            ),
    {
        let neighbor_index = i + array_offset;
        let neighbor_block = pre_mesh_data.get_pre_mesh(neighbor_index).get_block();
        let current_index = i;
        proof {
            lemma_culled_keeps_block(start, outside, Face::PositiveX, neighbor_index as int);
        }
        assert(block_behind(start, outside, Face::PositiveX, current_index as int) == Some(
            neighbor_block,
        ));
        cull_against(pre_mesh_data, current_index, neighbor_block);
    }
    assert(pre_mesh_data@ =~= culled_cells(start, outside, Face::PositiveX));
}

/// Hides each face that looks towards `-x` and is covered by the block before it.
pub fn pre_mesh_block_faces_on_negative_x(
    pre_mesh_data: &mut ChunkPreMeshOneDirection,
    neighbor_chunk_on_negative_x: &Option<ChunkData>,
)
    requires
        old(pre_mesh_data).is_full(),
        neighbor_chunk_on_negative_x matches Some(chunk_data) ==> chunk_data.is_full(),
        blocks_behind_are_known(
            old(pre_mesh_data)@,
            outside_blocks(*neighbor_chunk_on_negative_x),
            Face::NegativeX,
        ),
    ensures
        final(pre_mesh_data)@ == culled_cells(
            old(pre_mesh_data)@,
            outside_blocks(*neighbor_chunk_on_negative_x),
            Face::NegativeX,
        ),
{
    let ghost start = pre_mesh_data@;
    let ghost outside = outside_blocks(*neighbor_chunk_on_negative_x);
    match neighbor_chunk_on_negative_x {
        Some(chunk_data) => pre_mesh_negative_x_chunk_side(pre_mesh_data, chunk_data),
        None => (),
    }

    let array_offset = NB_BLOCK_ON_CHUNK_SIDE;

    for i in 0..NB_BLOCK_ON_CHUNK_WITHOUT_ONE_SIDE
        invariant
            array_offset == NB_BLOCK_ON_CHUNK_SIDE,
            blocks_behind_are_known(start, outside, Face::NegativeX),
            culled_where(
                pre_mesh_data@,
                start,
                outside,
                Face::NegativeX,
                |j: int| j < 4096 || j - 4096 < i,
            ),
    {
        let neighbor_index = i;
        let neighbor_block = pre_mesh_data.get_pre_mesh(neighbor_index).get_block();
        let current_index = i + array_offset;
        proof {
            lemma_culled_keeps_block(start, outside, Face::NegativeX, neighbor_index as int);
        }
        assert(block_behind(start, outside, Face::NegativeX, current_index as int) == Some(
            neighbor_block,
        ));
        cull_against(pre_mesh_data, current_index, neighbor_block);
    }
    assert(pre_mesh_data@ =~= culled_cells(start, outside, Face::NegativeX));
}

/// Hides each face that looks towards `+z` and is covered by the block beyond it.
pub fn pre_mesh_block_faces_on_positive_z(
    pre_mesh_data: &mut ChunkPreMeshOneDirection,
    neighbor_chunk_on_positive_z: &Option<ChunkData>,
)
    requires
        old(pre_mesh_data).is_full(),
        neighbor_chunk_on_positive_z matches Some(chunk_data) ==> chunk_data.is_full(),
        blocks_behind_are_known(
            old(pre_mesh_data)@,
            outside_blocks(*neighbor_chunk_on_positive_z),
            Face::PositiveZ,
        ),
    ensures
        final(pre_mesh_data)@ == culled_cells(
            old(pre_mesh_data)@,
            outside_blocks(*neighbor_chunk_on_positive_z),
            Face::PositiveZ,
        ),
{
    let ghost start = pre_mesh_data@;
    let ghost outside = outside_blocks(*neighbor_chunk_on_positive_z);
    match neighbor_chunk_on_positive_z {
        Some(chunk_data) => pre_mesh_positive_z_chunk_side(pre_mesh_data, chunk_data),
        None => (),
    }

    for i in 0..NB_BLOCK_ON_CHUNK_SIDE
        invariant
            blocks_behind_are_known(start, outside, Face::PositiveZ),
            culled_where(
                pre_mesh_data@,
                start,
                outside,
                Face::PositiveZ,
                |j: int| j % 16 == 15 || j / 16 < i,
            ),
    {
        for k in 0..(CHUNK_SIZE - 1)
            invariant
                i < NB_BLOCK_ON_CHUNK_SIDE,
                blocks_behind_are_known(start, outside, Face::PositiveZ),
                culled_where(
                    pre_mesh_data@,
                    start,
                    outside,
                    Face::PositiveZ,
                    |j: int| j % 16 == 15 || j / 16 < i || (j / 16 == i && j % 16 < k),
                ),
        {
            let neighbor_index = i * CHUNK_SIZE + k + 1;
            let neighbor_block = pre_mesh_data.get_pre_mesh(neighbor_index).get_block();
            let current_index = i * CHUNK_SIZE + k;
            proof {
                lemma_culled_keeps_block(start, outside, Face::PositiveZ, neighbor_index as int);
            }
            assert(block_behind(start, outside, Face::PositiveZ, current_index as int) == Some(
                neighbor_block,
            ));
            cull_against(pre_mesh_data, current_index, neighbor_block);
        }
    }
    assert(pre_mesh_data@ =~= culled_cells(start, outside, Face::PositiveZ));
}

/// Hides each face that looks towards `-z` and is covered by the block before it.
pub fn pre_mesh_block_faces_on_negative_z(
    pre_mesh_data: &mut ChunkPreMeshOneDirection,
    neighbor_chunk_on_negative_z: &Option<ChunkData>,
)
    requires
        old(pre_mesh_data).is_full(),
        neighbor_chunk_on_negative_z matches Some(chunk_data) ==> chunk_data.is_full(),
        blocks_behind_are_known(
            old(pre_mesh_data)@,
            outside_blocks(*neighbor_chunk_on_negative_z),
            Face::NegativeZ,
        ),
    ensures
        final(pre_mesh_data)@ == culled_cells(
            old(pre_mesh_data)@,
            outside_blocks(*neighbor_chunk_on_negative_z),
            Face::NegativeZ,
        ),
{
    let ghost start = pre_mesh_data@;
    let ghost outside = outside_blocks(*neighbor_chunk_on_negative_z);
    match neighbor_chunk_on_negative_z {
        Some(chunk_data) => pre_mesh_negative_z_chunk_side(pre_mesh_data, chunk_data),
        None => (),
    }

    for i in 0..NB_BLOCK_ON_CHUNK_SIDE
        invariant
            blocks_behind_are_known(start, outside, Face::NegativeZ),
            culled_where(
                pre_mesh_data@,
                start,
                outside,
                Face::NegativeZ,
                |j: int| j % 16 == 0 || j / 16 < i,
            ),
    {
        for k in 1..(CHUNK_SIZE)
            invariant
                i < NB_BLOCK_ON_CHUNK_SIDE,
                blocks_behind_are_known(start, outside, Face::NegativeZ),
                culled_where(
                    pre_mesh_data@,
                    start,
                    outside,
                    Face::NegativeZ,
                    |j: int| j % 16 == 0 || j / 16 < i || (j / 16 == i && j % 16 < k),
                ),
        {
            let neighbor_index = i * CHUNK_SIZE + k - 1;
            let neighbor_block = pre_mesh_data.get_pre_mesh(neighbor_index).get_block();
            let current_index = i * CHUNK_SIZE + k;
            proof {
                lemma_culled_keeps_block(start, outside, Face::NegativeZ, neighbor_index as int);
            }
            assert(block_behind(start, outside, Face::NegativeZ, current_index as int) == Some(
                neighbor_block,
            ));
            cull_against(pre_mesh_data, current_index, neighbor_block);
        }
    }
    assert(pre_mesh_data@ =~= culled_cells(start, outside, Face::NegativeZ));
}

/// Hides each face that looks up and is covered by the block above it. The
/// faces of the top layer stay.
pub fn pre_mesh_block_faces_on_positive_y(pre_mesh_data: &mut ChunkPreMeshOneDirection)
    requires
        old(pre_mesh_data).is_full(),
        blocks_behind_are_known(old(pre_mesh_data)@, None, Face::PositiveY),
    ensures
        final(pre_mesh_data)@ == culled_cells(old(pre_mesh_data)@, None, Face::PositiveY),
{
    let ghost start = pre_mesh_data@;
    let ghost outside: Option<Seq<Block>> = None;

    for i in 0..CHUNK_SIZE
        invariant
            blocks_behind_are_known(start, outside, Face::PositiveY),
            culled_where(
                pre_mesh_data@,
                start,
                outside,
                Face::PositiveY,
                |j: int| j / 4096 < i,
            ),
    {
        for k in 0..(NB_BLOCK_ON_CHUNK_SIDE - CHUNK_SIZE)
            invariant
                i < CHUNK_SIZE,
                blocks_behind_are_known(start, outside, Face::PositiveY),
                culled_where(
                    pre_mesh_data@,
                    start,
                    outside,
                    Face::PositiveY,
                    |j: int| j / 4096 < i || (j / 4096 == i && j % 4096 < k),
                ),
        {
            let neighbor_index = i * NB_BLOCK_ON_CHUNK_SIDE + k + CHUNK_SIZE;
            let neighbor_block = pre_mesh_data.get_pre_mesh(neighbor_index).get_block();
            let current_index = i * NB_BLOCK_ON_CHUNK_SIDE + k;
            proof {
                lemma_culled_keeps_block(start, outside, Face::PositiveY, neighbor_index as int);
            }
            assert(block_behind(start, outside, Face::PositiveY, current_index as int) == Some(
                neighbor_block,
            ));
            cull_against(pre_mesh_data, current_index, neighbor_block);
        }
    }
    assert(pre_mesh_data@ =~= culled_cells(start, outside, Face::PositiveY));
}

/// Hides each face that looks down and is covered by the block below it.
/// The faces of the bottom layer stay.
pub fn pre_mesh_block_faces_on_negative_y(pre_mesh_data: &mut ChunkPreMeshOneDirection)
    requires
        old(pre_mesh_data).is_full(),
        blocks_behind_are_known(old(pre_mesh_data)@, None, Face::NegativeY),
    ensures
        final(pre_mesh_data)@ == culled_cells(old(pre_mesh_data)@, None, Face::NegativeY),
{
    let ghost start = pre_mesh_data@;
    let ghost outside: Option<Seq<Block>> = None;

    for i in 0..CHUNK_SIZE
        invariant
            blocks_behind_are_known(start, outside, Face::NegativeY),
            culled_where(
                pre_mesh_data@,
                start,
                outside,
                Face::NegativeY,
                |j: int| j / 4096 < i,
            ),
    {
        for k in CHUNK_SIZE..NB_BLOCK_ON_CHUNK_SIDE
            invariant
                i < CHUNK_SIZE,
                blocks_behind_are_known(start, outside, Face::NegativeY),
                culled_where(
                    pre_mesh_data@,
                    start,
                    outside,
                    Face::NegativeY,
                    |j: int| j / 4096 < i || (j / 4096 == i && j % 4096 < k),
                ),
        {
            let neighbor_index = i * NB_BLOCK_ON_CHUNK_SIDE + k - CHUNK_SIZE;
            let neighbor_block = pre_mesh_data.get_pre_mesh(neighbor_index).get_block();
            let current_index = i * NB_BLOCK_ON_CHUNK_SIDE + k;
            proof {
                lemma_culled_keeps_block(start, outside, Face::NegativeY, neighbor_index as int);
            }
            assert(block_behind(start, outside, Face::NegativeY, current_index as int) == Some(
                neighbor_block,
            ));
            cull_against(pre_mesh_data, current_index, neighbor_block);
        }
    }
    assert(pre_mesh_data@ =~= culled_cells(start, outside, Face::NegativeY));
}

/// Whether all the blocks of a chunk are the block `block`.
pub open spec fn is_filled_with(blocks: Seq<Block>, block: Block) -> bool {
    &&& blocks.len() == NB_BLOCKS_PER_CHUNK
    &&& forall|i: int| 0 <= i < NB_BLOCKS_PER_CHUNK ==> #[trigger] blocks[i] == block
}

/// A chunk filled with one block, beside a loaded chunk that is filled with
/// the same block, shows no face on that side after culling.
pub proof fn lemma_enclosed_side_is_hidden(
    cells: Seq<BlockPreMesh>,
    neighbor_blocks: Seq<Block>,
    direction: Face,
    block: Block,
    i: int,
)
    requires
        direction != Face::PositiveY,
        direction != Face::NegativeY,
        cells.len() == NB_BLOCKS_PER_CHUNK,
        forall|j: int|
            0 <= j < NB_BLOCKS_PER_CHUNK ==> (#[trigger] cells[j]).spec_get_block() == block,
        is_filled_with(neighbor_blocks, block),
        0 <= i < NB_BLOCKS_PER_CHUNK,
    ensures
        !culled_cells(cells, Some(neighbor_blocks), direction)[i].spec_will_be_rendered(),
{
    let behind = block_behind(cells, Some(neighbor_blocks), direction, i);
    assert(behind == Some(block)) by {
        match direction {
            Face::PositiveX => {
                if i < 61440 {
                    assert(cells[i + 4096].spec_get_block() == block);
                } else {
                    assert(neighbor_blocks[i - 61440] == block);
                }
            },
            Face::NegativeX => {
                if i >= 4096 {
                    assert(cells[i - 4096].spec_get_block() == block);
                } else {
                    assert(neighbor_blocks[i + 61440] == block);
                }
            },
            Face::PositiveZ => {
                if i % 16 != 15 {
                    assert(cells[i + 1].spec_get_block() == block);
                } else {
                    assert(neighbor_blocks[i - 15] == block);
                }
            },
            Face::NegativeZ => {
                if i % 16 != 0 {
                    assert(cells[i - 1].spec_get_block() == block);
                } else {
                    assert(neighbor_blocks[i + 15] == block);
                }
            },
            _ => {},
        }
    }
    assert(cells[i].spec_get_block() == block);
    lemma_equal_neighbor_is_culled(cells, Some(neighbor_blocks), direction, i);
}

} // verus!
