//! The mesh of one chunk, from its blocks and those of its neighbours.

use vstd::prelude::*;
use std::collections::HashMap;
use crate::block::Block;
use crate::chunk::{Chunk, ChunkData, NB_BLOCKS_PER_CHUNK};
use crate::chunk_renderer::blocks_resources::{is_known_block, InvalidBlockId, NB_BLOCK_KINDS};
use crate::chunk_renderer::covered_faces::{
    culled_cells,
    is_filled_with,
    lemma_culled_keeps_block,
    lemma_enclosed_side_is_hidden,
    outside_blocks,
};
use crate::chunk_renderer::greedy_mesh::{
    lemma_merging_keeps_blocks,
    lemma_merging_keeps_hidden,
    merged_on_x_axis,
    merged_on_y_axis,
    merged_on_z_axis,
};
use crate::chunk_renderer::pre_mesh_creator::{
    initial_cells,
    BlockPreMesh,
    ChunkPreMesh,
    NeighborChunks,
};
use crate::chunk_renderer::pre_mesh_to_bundle_conveter::{
    batches_view,
    emitted_faces,
    get_faces_mesh,
    FacesMeshWithColor,
    FacesMeshWithColorView,
};
use crate::world::{has_neighbors, CHUNK_SIZE_I32};

verus! {

/// One of the six directions a face of a block can look in.
#[derive(Clone, Copy, Debug, PartialEq, Eq, Structural)]
pub enum Face {
    PositiveX,
    NegativeX,
    PositiveY,
    NegativeY,
    PositiveZ,
    NegativeZ,
}

/// The first chunk of `chunks` with its origin at `chunk_coords`, if there
/// is one.
pub open spec fn spec_chunk_at(chunks: Seq<&Chunk>, chunk_coords: (i32, i32, i32)) -> Option<
    Seq<Block>,
>
    decreases chunks.len(),
{
    if chunks.len() == 0 {
        None
    } else if chunks.first().spec_coords()@ == chunk_coords {
        Some(chunks.first()@)
    } else {
        spec_chunk_at(chunks.drop_first(), chunk_coords)
    }
}

/// A copy of the blocks of the chunk at `chunk_coords`, if it is among
/// `chunks`.
pub fn get_chunk_data(chunk_coords: (i32, i32, i32), chunks: &Vec<&Chunk>) -> (chunk_data: Option<
    ChunkData,
>)
    ensures
        outside_blocks(chunk_data) == spec_chunk_at(chunks@, chunk_coords),
{
    let mut i: usize = 0;
    assert(chunks@.subrange(0, chunks@.len() as int) =~= chunks@);
    while i < chunks.len()
        invariant
            i <= chunks@.len(),
            spec_chunk_at(chunks@, chunk_coords) == spec_chunk_at(
                chunks@.subrange(i as int, chunks@.len() as int),
                chunk_coords,
            ),
        decreases chunks@.len() - i,
    {
        let chunk = chunks[i];
        let coords = chunk.get_coords().to_tuple();
        let ghost rest = chunks@.subrange(i as int, chunks@.len() as int);
        assert(rest.first() == chunks@[i as int]);
        assert(rest.drop_first() =~= chunks@.subrange(i + 1, chunks@.len() as int));
        if coords.0 == chunk_coords.0 && coords.1 == chunk_coords.1 && coords.2 == chunk_coords.2 {
            return Some(chunk.get_blocks().clone());
        }
        i += 1;
    }
    None
}

/// Copies of the blocks of the four chunks beside the chunk at
/// `chunk_coords`, each `None` where that chunk is not among `chunks`.
pub fn get_neighbor_chunks(chunk_coords: (i32, i32, i32), chunks: &Vec<&Chunk>) -> (neighbors:
    NeighborChunks)
    requires
        has_neighbors(chunk_coords),
    ensures
        outside_blocks(neighbors.positive_x) == spec_chunk_at(
            chunks@,
            ((chunk_coords.0 + 16) as i32, chunk_coords.1, chunk_coords.2),
        ),
        outside_blocks(neighbors.negative_x) == spec_chunk_at(
            chunks@,
            ((chunk_coords.0 - 16) as i32, chunk_coords.1, chunk_coords.2),
        ),
        outside_blocks(neighbors.positive_z) == spec_chunk_at(
            chunks@,
            (chunk_coords.0, chunk_coords.1, (chunk_coords.2 + 16) as i32),
        ),
        outside_blocks(neighbors.negative_z) == spec_chunk_at(
            chunks@,
            (chunk_coords.0, chunk_coords.1, (chunk_coords.2 - 16) as i32),
        ),
{
    let (x, y, z) = chunk_coords;
    NeighborChunks {
        positive_x: get_chunk_data((x + CHUNK_SIZE_I32, y, z), chunks),
        negative_x: get_chunk_data((x - CHUNK_SIZE_I32, y, z), chunks),
        positive_z: get_chunk_data((x, y, z + CHUNK_SIZE_I32), chunks),
        negative_z: get_chunk_data((x, y, z - CHUNK_SIZE_I32), chunks),
    }
}

/// The id of the first block, from index `from` on, that the catalogue does
/// not know, if there is one.
pub open spec fn first_unknown_block(blocks: Seq<Block>, from: int) -> Option<u16>
    decreases blocks.len() - from,
{
    if from < 0 || from >= blocks.len() {
        None
    } else if !is_known_block(blocks[from].spec_get_id()) {
        Some(blocks[from].spec_get_id())
    } else {
        first_unknown_block(blocks, from + 1)
    }
}

/// The id of the first block that the catalogue does not know, of the
/// blocks of a neighbour that is loaded.
pub open spec fn first_unknown_outside(neighbor_chunk: Option<ChunkData>) -> Option<u16> {
    match neighbor_chunk {
        Some(chunk_data) => first_unknown_block(chunk_data@, 0),
        None => None,
    }
}

/// The id of the first block that the catalogue does not know: of the
/// chunk's own blocks, then of those of its neighbours towards `+x`, `-x`,
/// `+z` and `-z`.
pub open spec fn first_unknown_around(
    blocks: Seq<Block>,
    neighbor_chunks: NeighborChunks,
) -> Option<u16> {
    if first_unknown_block(blocks, 0) is Some {
        first_unknown_block(blocks, 0)
    } else if first_unknown_outside(neighbor_chunks.positive_x) is Some {
        first_unknown_outside(neighbor_chunks.positive_x)
    } else if first_unknown_outside(neighbor_chunks.negative_x) is Some {
        first_unknown_outside(neighbor_chunks.negative_x)
    } else if first_unknown_outside(neighbor_chunks.positive_z) is Some {
        first_unknown_outside(neighbor_chunks.positive_z)
    } else {
        first_unknown_outside(neighbor_chunks.negative_z)
    }
}

/// There is no first unknown block from `from` on exactly where every block
/// from there on is known; and a first unknown block is unknown.
pub proof fn lemma_first_unknown_block(blocks: Seq<Block>, from: int)
    requires
        0 <= from,
    ensures
        first_unknown_block(blocks, from) is None <==> forall|i: int|
            from <= i < blocks.len() ==> is_known_block(#[trigger] blocks[i].spec_get_id()),
        first_unknown_block(blocks, from) matches Some(block_id) ==> !is_known_block(block_id),
    decreases blocks.len() - from,
{
    if from < blocks.len() {
        lemma_first_unknown_block(blocks, from + 1);
        if is_known_block(blocks[from].spec_get_id()) {
            assert forall|i: int| from <= i < blocks.len() && (forall|j: int|
                from + 1 <= j < blocks.len() ==> is_known_block(
                    #[trigger] blocks[j].spec_get_id(),
                )) implies is_known_block(#[trigger] blocks[i].spec_get_id()) by {}
        }
    }
}

/// Where the blocks of a neighbour hold no unknown block, every one of them
/// is known.
proof fn lemma_first_unknown_outside(outside: Option<Seq<Block>>)
    ensures
        outside matches Some(blocks) ==> (first_unknown_block(blocks, 0) is None ==> forall|
            i: int,
        |
            0 <= i < blocks.len() ==> is_known_block(#[trigger] blocks[i].spec_get_id())),
{
    if let Some(blocks) = outside {
        lemma_first_unknown_block(blocks, 0);
    }
}

/// Looks for a block that the catalogue does not know and fails with the id
/// of the first one.
pub fn check_blocks(blocks: &[Block]) -> (checked: Result<(), InvalidBlockId>)
    ensures
        match first_unknown_block(blocks@, 0) {
            Some(block_id) => checked == Err::<(), InvalidBlockId>(InvalidBlockId(block_id)),
            None => checked is Ok,
        },
{
    let mut i: usize = 0;
    while i < blocks.len()
        invariant
            i <= blocks@.len(),
            first_unknown_block(blocks@, 0) == first_unknown_block(blocks@, i as int),
        decreases blocks@.len() - i,
    {
        let block_id = blocks[i].get_id();
        if block_id >= NB_BLOCK_KINDS {
            return Err(InvalidBlockId(block_id));
        }
        i += 1;
    }
    Ok(())
}

/// Checks the blocks of a neighbour that is loaded.
fn check_neighbor(neighbor_chunk: &Option<ChunkData>) -> (checked: Result<(), InvalidBlockId>)
    ensures
        match first_unknown_outside(*neighbor_chunk) {
            Some(block_id) => checked == Err::<(), InvalidBlockId>(InvalidBlockId(block_id)),
            None => checked is Ok,
        },
{
    match neighbor_chunk {
        Some(chunk_data) => check_blocks(chunk_data.as_slice()),
        None => Ok(()),
    }
}

/// The meshes of a chunk, by colour: its faces are culled against its own
/// blocks and those of its neighbours, merged, and emitted.
pub open spec fn meshed_chunk(blocks: Seq<Block>, neighbor_chunks: NeighborChunks) -> Map<
    u32,
    FacesMeshWithColorView,
> {
    let start = initial_cells(blocks);
    emitted_faces(
        merged_on_x_axis(
            culled_cells(start, outside_blocks(neighbor_chunks.positive_x), Face::PositiveX),
        ),
        merged_on_x_axis(
            culled_cells(start, outside_blocks(neighbor_chunks.negative_x), Face::NegativeX),
        ),
        merged_on_y_axis(culled_cells(start, None, Face::PositiveY)),
        merged_on_y_axis(culled_cells(start, None, Face::NegativeY)),
        merged_on_z_axis(
            culled_cells(start, outside_blocks(neighbor_chunks.positive_z), Face::PositiveZ),
        ),
        merged_on_z_axis(
            culled_cells(start, outside_blocks(neighbor_chunks.negative_z), Face::NegativeZ),
        ),
    )
}

/// The meshes of a chunk, by colour, or `InvalidBlockId` with the id of the
/// first block, of the chunk or of a neighbour, that the catalogue does not
/// know.
pub fn generate_chunk_mesh(chunk: &Chunk, neighbor_chunks: &NeighborChunks) -> (meshes: Result<
    HashMap<u32, FacesMeshWithColor>,
    InvalidBlockId,
>)
    requires
        chunk@.len() == NB_BLOCKS_PER_CHUNK,
        neighbor_chunks.is_full(),
    ensures
        match first_unknown_around(chunk@, *neighbor_chunks) {
            Some(block_id) => meshes is Err && meshes->Err_0 == InvalidBlockId(block_id),
            None => meshes is Ok && batches_view(meshes->Ok_0@) == meshed_chunk(
                chunk@,
                *neighbor_chunks,
            ),
        },
{
    match check_blocks(chunk.as_slice()) {
        Err(invalid) => {
            return Err(invalid);
        },
        Ok(_) => {},
    }
    match check_neighbor(&neighbor_chunks.positive_x) {
        Err(invalid) => {
            return Err(invalid);
        },
        Ok(_) => {},
    }
    match check_neighbor(&neighbor_chunks.negative_x) {
        Err(invalid) => {
            return Err(invalid);
        },
        Ok(_) => {},
    }
    match check_neighbor(&neighbor_chunks.positive_z) {
        Err(invalid) => {
            return Err(invalid);
        },
        Ok(_) => {},
    }
    match check_neighbor(&neighbor_chunks.negative_z) {
        Err(invalid) => {
            return Err(invalid);
        },
        Ok(_) => {},
    }
    proof {
        lemma_first_unknown_block(chunk@, 0);
        lemma_first_unknown_outside(outside_blocks(neighbor_chunks.positive_x));
        lemma_first_unknown_outside(outside_blocks(neighbor_chunks.negative_x));
        lemma_first_unknown_outside(outside_blocks(neighbor_chunks.positive_z));
        lemma_first_unknown_outside(outside_blocks(neighbor_chunks.negative_z));
    }

    let mut chunk_pre_meshes = ChunkPreMesh::new(chunk.as_slice());
    let ghost start = initial_cells(chunk@);
    assert forall|i: int| 0 <= i < NB_BLOCKS_PER_CHUNK implies is_known_block(
        (#[trigger] start[i]).spec_get_block().spec_get_id(),
    ) by {
        assert(is_known_block(chunk@[i].spec_get_id()));
    }
    chunk_pre_meshes.optimise(neighbor_chunks);
    proof {
        assert forall|i: int| 0 <= i < NB_BLOCKS_PER_CHUNK implies is_known_block(
            (#[trigger] chunk_pre_meshes.positive_x@[i]).spec_get_block().spec_get_id(),
        ) by {
            let culled = culled_cells(
                start,
                outside_blocks(neighbor_chunks.positive_x),
                Face::PositiveX,
            );
            lemma_merging_keeps_blocks(culled, i);
            lemma_culled_keeps_block(
                start,
                outside_blocks(neighbor_chunks.positive_x),
                Face::PositiveX,
                i,
            );
            assert(is_known_block(start[i].spec_get_block().spec_get_id()));
        }
        assert forall|i: int| 0 <= i < NB_BLOCKS_PER_CHUNK implies is_known_block(
            (#[trigger] chunk_pre_meshes.negative_x@[i]).spec_get_block().spec_get_id(),
        ) by {
            let culled = culled_cells(
                start,
                outside_blocks(neighbor_chunks.negative_x),
                Face::NegativeX,
            );
            lemma_merging_keeps_blocks(culled, i);
            lemma_culled_keeps_block(
                start,
                outside_blocks(neighbor_chunks.negative_x),
                Face::NegativeX,
                i,
            );
            assert(is_known_block(start[i].spec_get_block().spec_get_id()));
        }
        assert forall|i: int| 0 <= i < NB_BLOCKS_PER_CHUNK implies is_known_block(
            (#[trigger] chunk_pre_meshes.positive_y@[i]).spec_get_block().spec_get_id(),
        ) by {
            let culled = culled_cells(start, None, Face::PositiveY);
            lemma_merging_keeps_blocks(culled, i);
            lemma_culled_keeps_block(start, None, Face::PositiveY, i);
            assert(is_known_block(start[i].spec_get_block().spec_get_id()));
        }
        assert forall|i: int| 0 <= i < NB_BLOCKS_PER_CHUNK implies is_known_block(
            (#[trigger] chunk_pre_meshes.negative_y@[i]).spec_get_block().spec_get_id(),
        ) by {
            let culled = culled_cells(start, None, Face::NegativeY);
            lemma_merging_keeps_blocks(culled, i);
            lemma_culled_keeps_block(start, None, Face::NegativeY, i);
            assert(is_known_block(start[i].spec_get_block().spec_get_id()));
        }
        assert forall|i: int| 0 <= i < NB_BLOCKS_PER_CHUNK implies is_known_block(
            (#[trigger] chunk_pre_meshes.positive_z@[i]).spec_get_block().spec_get_id(),
        ) by {
            let culled = culled_cells(
                start,
                outside_blocks(neighbor_chunks.positive_z),
                Face::PositiveZ,
            );
            lemma_merging_keeps_blocks(culled, i);
            lemma_culled_keeps_block(
                start,
                outside_blocks(neighbor_chunks.positive_z),
                Face::PositiveZ,
                i,
            );
            assert(is_known_block(start[i].spec_get_block().spec_get_id()));
        }
        assert forall|i: int| 0 <= i < NB_BLOCKS_PER_CHUNK implies is_known_block(
            (#[trigger] chunk_pre_meshes.negative_z@[i]).spec_get_block().spec_get_id(),
        ) by {
            let culled = culled_cells(
                start,
                outside_blocks(neighbor_chunks.negative_z),
                Face::NegativeZ,
            );
            lemma_merging_keeps_blocks(culled, i);
            lemma_culled_keeps_block(
                start,
                outside_blocks(neighbor_chunks.negative_z),
                Face::NegativeZ,
                i,
            );
            assert(is_known_block(start[i].spec_get_block().spec_get_id()));
        }
    }
    let chunk_faces = get_faces_mesh(&chunk_pre_meshes);
    Ok(chunk_faces)
}

/// The array of `direction` after culling against a loaded neighbour and
/// merging.
pub open spec fn side_of_chunk(
    blocks: Seq<Block>,
    neighbor_blocks: Seq<Block>,
    direction: Face,
) -> Seq<BlockPreMesh> {
    let culled = culled_cells(initial_cells(blocks), Some(neighbor_blocks), direction);
    match direction {
        Face::PositiveX | Face::NegativeX => merged_on_x_axis(culled),
        Face::PositiveY | Face::NegativeY => merged_on_y_axis(culled),
        Face::PositiveZ | Face::NegativeZ => merged_on_z_axis(culled),
    }
}

/// A chunk filled with one block shows no face towards a loaded neighbour
/// that is filled with the same block: after culling and merging, none of
/// the faces of that side is drawn. Above and below there is no neighbour,
/// and the top and the bottom of the chunk stay.
pub proof fn lemma_enclosed_chunk_shows_no_side(
    blocks: Seq<Block>,
    neighbor_blocks: Seq<Block>,
    block: Block,
    direction: Face,
)
    requires
        direction != Face::PositiveY,
        direction != Face::NegativeY,
        is_filled_with(blocks, block),
        is_filled_with(neighbor_blocks, block),
    ensures
        forall|i: int|
            0 <= i < NB_BLOCKS_PER_CHUNK ==> !(#[trigger] side_of_chunk(
                blocks,
                neighbor_blocks,
                direction,
            )[i]).spec_will_be_rendered(),
{
    let cells = initial_cells(blocks);
    let culled = culled_cells(cells, Some(neighbor_blocks), direction);
    assert forall|j: int| 0 <= j < NB_BLOCKS_PER_CHUNK implies (
    #[trigger] cells[j]).spec_get_block() == block by {
        assert(blocks[j] == block);
    }
    assert forall|j: int| 0 <= j < NB_BLOCKS_PER_CHUNK implies !(
    #[trigger] culled[j]).spec_will_be_rendered() by {
        lemma_enclosed_side_is_hidden(cells, neighbor_blocks, direction, block, j);
    }
    lemma_merging_keeps_hidden(culled);
}

} // verus!
