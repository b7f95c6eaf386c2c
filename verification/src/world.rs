//! The chunks of a world: which are loaded, which are being generated, and
//! which have to be meshed again.

use vstd::prelude::*;
use crate::chunk_set::ChunkSet;

verus! {

/// Width of a chunk in blocks, as a signed number.
pub const CHUNK_SIZE_I32: i32 = 16;

/// The distance from a viewpoint, in chunks, within which chunks are loaded.
pub const RENDER_RADIUS: i32 = 16;

/// The same distance in blocks.
pub const DIST_TO_LOAD_CHUNK: i32 = RENDER_RADIUS * CHUNK_SIZE_I32;

/// The distance from every viewpoint, in chunks, beyond which a chunk is
/// unloaded.
pub const UNLOAD_RADIUS: i32 = 20;

/// The same distance in blocks.
pub const DIST_TO_UNLOAD_CHUNK: i32 = UNLOAD_RADIUS * CHUNK_SIZE_I32;

/// How many chunks may be in generation at a time.
pub const NB_CHUNKS_MAX_GENERATING_IN_THE_BACKGROUND: usize = 1;

/// The state of one world: its three sets of chunk origins and the limits
/// that chunks are loaded, unloaded and generated by.
pub struct World {
    pub seed: u32,
    pub render_radius: i32,
    pub unload_radius: i32,
    pub max_generating: usize,
    pub loaded_chunks: ChunkSet,
    pub chunks_in_generation: ChunkSet,
    pub chunks_to_render: ChunkSet,
}

/// Whether the four chunks beside the chunk at `chunk_coords` have origins
/// that fit 32 bits.
pub open spec fn has_neighbors(chunk_coords: (i32, i32, i32)) -> bool {
    &&& i32::MIN <= chunk_coords.0 - 16
    &&& chunk_coords.0 + 16 <= i32::MAX
    &&& i32::MIN <= chunk_coords.2 - 16
    &&& chunk_coords.2 + 16 <= i32::MAX
}

/// The origins of the four chunks beside the chunk at `chunk_coords`, in the
/// single layer of chunks.
pub open spec fn spec_neighbor_chunks(chunk_coords: (i32, i32, i32)) -> Set<(i32, i32, i32)> {
    let x = chunk_coords.0;
    let z = chunk_coords.2;
    set![
        ((x + 16) as i32, 0i32, z),
        ((x - 16) as i32, 0i32, z),
        (x, 0i32, (z + 16) as i32),
        (x, 0i32, (z - 16) as i32),
    ]
}

impl World {
    /// Whether the three sets are valid and the radii are in order: chunks
    /// are unloaded further out than they are loaded.
    pub open spec fn is_valid(&self) -> bool {
        &&& self.loaded_chunks.is_valid()
        &&& self.chunks_in_generation.is_valid()
        &&& self.chunks_to_render.is_valid()
        &&& 0 <= self.render_radius < self.unload_radius
        &&& forall|chunk: (i32, i32, i32)| #[trigger]
            self.loaded_chunks@.contains(chunk) ==> has_neighbors(chunk)
    }

    /// Whether `after` has the same radii, the same limit on chunks in
    /// generation and the same seed.
    pub open spec fn has_limits_of(&self, after: &World) -> bool {
        &&& after.seed == self.seed
        &&& after.render_radius == self.render_radius
        &&& after.unload_radius == self.unload_radius
        &&& after.max_generating == self.max_generating
    }

    /// Whether no more chunks are in generation than may be.
    pub open spec fn is_within_capacity(&self) -> bool {
        self.chunks_in_generation@.len() <= self.max_generating
    }

    /// A world without chunks, with the usual radii and one chunk in
    /// generation at a time.
    pub fn new(seed: u32) -> (world: World)
        ensures
            world.is_valid(),
            world.is_within_capacity(),
            world.seed == seed,
            world.render_radius == RENDER_RADIUS,
            world.unload_radius == UNLOAD_RADIUS,
            world.max_generating == NB_CHUNKS_MAX_GENERATING_IN_THE_BACKGROUND,
            world.loaded_chunks@ == Set::<(i32, i32, i32)>::empty(),
            world.chunks_in_generation@ == Set::<(i32, i32, i32)>::empty(),
            world.chunks_to_render@ == Set::<(i32, i32, i32)>::empty(),
    {
        Self {
            seed,
            render_radius: RENDER_RADIUS,
            unload_radius: UNLOAD_RADIUS,
            max_generating: NB_CHUNKS_MAX_GENERATING_IN_THE_BACKGROUND,
            loaded_chunks: ChunkSet::new(),
            chunks_in_generation: ChunkSet::new(),
            chunks_to_render: ChunkSet::new(),
        }
    }

    /// A world without chunks, with radii in chunks and a limit on the
    /// chunks in generation of the caller's choice, or `None` where the
    /// radii are not in order.
    pub fn with_limits(
        seed: u32,
        render_radius: i32,
        unload_radius: i32,
        max_generating: usize,
    ) -> (made: Option<World>)
        ensures
            made is Some <==> 0 <= render_radius < unload_radius,
            made matches Some(world) ==> {
                &&& world.is_valid()
                &&& world.is_within_capacity()
                &&& world.seed == seed
                &&& world.render_radius == render_radius
                &&& world.unload_radius == unload_radius
                &&& world.max_generating == max_generating
                &&& world.loaded_chunks@ == Set::<(i32, i32, i32)>::empty()
                &&& world.chunks_in_generation@ == Set::<(i32, i32, i32)>::empty()
                &&& world.chunks_to_render@ == Set::<(i32, i32, i32)>::empty()
            },
    {
        if 0 <= render_radius && render_radius < unload_radius {
            Some(
                Self {
                    seed,
                    render_radius,
                    unload_radius,
                    max_generating,
                    loaded_chunks: ChunkSet::new(),
                    chunks_in_generation: ChunkSet::new(),
                    chunks_to_render: ChunkSet::new(),
                },
            )
        } else {
            None
        }
    }
}

/// The origins of the four chunks beside the chunk at `chunk_coords`.
pub fn get_neighbor_chunks(chunk_coords: &(i32, i32, i32)) -> (neighbors: ChunkSet)
    requires
        has_neighbors(*chunk_coords),
    ensures
        neighbors.is_valid(),
        neighbors@ == spec_neighbor_chunks(*chunk_coords),
{
    let x = chunk_coords.0;
    let z = chunk_coords.2;
    let mut neighbors = ChunkSet::new();
    neighbors.insert((x + CHUNK_SIZE_I32, 0, z));
    neighbors.insert((x - CHUNK_SIZE_I32, 0, z));
    neighbors.insert((x, 0, z + CHUNK_SIZE_I32));
    neighbors.insert((x, 0, z - CHUNK_SIZE_I32));
    assert(neighbors@ =~= spec_neighbor_chunks(*chunk_coords));
    neighbors
}

} // verus!
