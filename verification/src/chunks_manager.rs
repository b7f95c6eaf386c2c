//! The scheduler: which chunks to unload, which to load, which of those to
//! generate first, and what to mesh again when a chunk comes or goes.
//!
//! Distances are measured in the horizontal plane, in blocks, and rounded
//! down to whole blocks before they are compared.

use vstd::prelude::*;
use crate::camera::Position;
use crate::chunk_set::ChunkSet;
use crate::world::{get_neighbor_chunks, has_neighbors, spec_neighbor_chunks, World};

verus! {

/// A chunk that could be generated, with its score: the lower the score,
/// the sooner the chunk is generated.
#[derive(Clone, Copy, Debug)]
pub struct RatedChunk {
    pub coords: (i32, i32, i32),
    pub score: u32,
}

/// The square of the horizontal distance between a viewpoint and a chunk
/// origin.
pub open spec fn squared_distance(camera_pos: Position, chunk: (i32, i32, i32)) -> int {
    (camera_pos.x - chunk.0) * (camera_pos.x - chunk.0) + (camera_pos.z - chunk.2) * (camera_pos.z
        - chunk.2)
}

/// Whether the distance between a viewpoint and a chunk, rounded down to a
/// whole number of blocks, is more than `radius` chunks.
pub open spec fn is_out_of_range(
    camera_pos: Position,
    chunk: (i32, i32, i32),
    radius: int,
) -> bool {
    squared_distance(camera_pos, chunk) >= (16 * radius + 1) * (16 * radius + 1)
}

/// Whether a chunk is out of range of every viewpoint.
pub open spec fn should_unload(
    cameras_pos: Seq<Position>,
    chunk: (i32, i32, i32),
    radius: int,
) -> bool {
    forall|i: int|
        0 <= i < cameras_pos.len() ==> is_out_of_range(#[trigger] cameras_pos[i], chunk, radius)
}

/// A coordinate moved towards zero onto the chunk grid.
pub open spec fn on_grid(coordinate: i32) -> int {
    if coordinate >= 0 {
        coordinate - coordinate % 16
    } else {
        -((-coordinate) - (-coordinate) % 16)
    }
}

/// Whether a chunk lies on the grid around a viewpoint, in the single layer
/// of chunks, at a distance from the viewpoint's own chunk that, rounded
/// down to whole blocks, is less than `radius` chunks.
pub open spec fn is_in_range(camera_pos: Position, chunk: (i32, i32, i32), radius: int) -> bool {
    let offset_x = chunk.0 - on_grid(camera_pos.x);
    let offset_z = chunk.2 - on_grid(camera_pos.z);
    &&& chunk.1 == 0
    &&& offset_x % 16 == 0
    &&& offset_z % 16 == 0
    &&& offset_x * offset_x + offset_z * offset_z < (16 * radius) * (16 * radius)
}

/// Whether a chunk origin lies on the grid of the single layer of chunks:
/// `x` and `z` multiples of sixteen, `y` zero.
pub open spec fn is_on_grid(chunk: (i32, i32, i32)) -> bool {
    chunk.0 % 16 == 0 && chunk.1 == 0 && chunk.2 % 16 == 0
}

/// A chunk in range of a viewpoint lies on the grid.
pub proof fn lemma_in_range_is_on_grid(camera_pos: Position, chunk: (i32, i32, i32), radius: int)
    requires
        is_in_range(camera_pos, chunk, radius),
    ensures
        is_on_grid(chunk),
{
}

/// Whether a chunk is in range of some viewpoint.
pub open spec fn should_load(
    cameras_pos: Seq<Position>,
    chunk: (i32, i32, i32),
    radius: int,
) -> bool {
    exists|i: int|
        0 <= i < cameras_pos.len() && is_in_range(#[trigger] cameras_pos[i], chunk, radius)
}

/// Whether every chunk in range of the viewpoint has an origin that fits
/// 32 bits.
pub open spec fn can_scan(camera_pos: Position, radius: int) -> bool {
    radius >= 1 ==> {
        &&& i32::MIN <= on_grid(camera_pos.x) - 16 * (radius - 1)
        &&& on_grid(camera_pos.x) + 16 * (radius - 1) <= i32::MAX
        &&& i32::MIN <= on_grid(camera_pos.z) - 16 * (radius - 1)
        &&& on_grid(camera_pos.z) + 16 * (radius - 1) <= i32::MAX
    }
}

/// The square of the horizontal distance between two points.
fn squared_distance_between(ax: i32, az: i32, bx: i32, bz: i32) -> (squared: i128)
    ensures
        squared == (ax - bx) * (ax - bx) + (az - bz) * (az - bz),
        0 <= squared,
{
    let dx: i128 = ax as i128 - bx as i128;
    let dz: i128 = az as i128 - bz as i128;
    assert(0 <= dx * dx <= 0x1_0000_0000 * 0x1_0000_0000) by (nonlinear_arith)
        requires
            -0x1_0000_0000 <= dx <= 0x1_0000_0000,
    ;
    assert(0 <= dz * dz <= 0x1_0000_0000 * 0x1_0000_0000) by (nonlinear_arith)
        requires
            -0x1_0000_0000 <= dz <= 0x1_0000_0000,
    ;
    dx * dx + dz * dz
}

/// Whether a chunk is out of range of every viewpoint.
fn is_out_of_every_range(
    cameras_pos: &Vec<Position>,
    chunk: (i32, i32, i32),
    radius: i32,
) -> (out: bool)
    requires
        0 <= radius,
    ensures
        out == should_unload(cameras_pos@, chunk, radius as int),
{
    let reach: i128 = 16 * (radius as i128) + 1;
    assert(0 <= reach * reach <= 0x10_0000_0000 * 0x10_0000_0000) by (nonlinear_arith)
        requires
            0 <= reach <= 0x10_0000_0000,
    ;
    let limit: i128 = reach * reach;
    for i in 0..cameras_pos.len()
        invariant
            limit == (16 * radius + 1) * (16 * radius + 1),
            forall|j: int|
                0 <= j < i ==> is_out_of_range(#[trigger] cameras_pos@[j], chunk, radius as int),
    {
        let camera_pos = cameras_pos[i];
        if squared_distance_between(camera_pos.x, camera_pos.z, chunk.0, chunk.2) < limit {
            assert(!is_out_of_range(cameras_pos@[i as int], chunk, radius as int));
            return false;
        }
    }
    true
}

/// The loaded chunks that are out of range of every viewpoint.
pub fn get_chunks_to_unload(world: &World, cameras_pos: &Vec<Position>) -> (chunks_to_unload:
    ChunkSet)
    requires
        world.is_valid(),
    ensures
        chunks_to_unload.is_valid(),
        forall|chunk: (i32, i32, i32)|
            chunks_to_unload@.contains(chunk) <==> world.loaded_chunks@.contains(chunk)
                && should_unload(cameras_pos@, chunk, world.unload_radius as int),
{
    let loaded = world.loaded_chunks.to_vec();
    let mut chunks_to_unload = ChunkSet::new();
    for i in 0..loaded.len()
        invariant
            world.is_valid(),
            loaded@.to_set() == world.loaded_chunks@,
            chunks_to_unload.is_valid(),
            forall|chunk: (i32, i32, i32)|
                chunks_to_unload@.contains(chunk) <==> (exists|j: int|
                    0 <= j < i && loaded@[j] == chunk) && should_unload(
                    cameras_pos@,
                    chunk,
                    world.unload_radius as int,
                ),
    {
        let chunk = loaded[i];
        if is_out_of_every_range(cameras_pos, chunk, world.unload_radius) {
            chunks_to_unload.insert(chunk);
        }
    }
    assert forall|chunk: (i32, i32, i32)|
        chunks_to_unload@.contains(chunk) <==> world.loaded_chunks@.contains(chunk)
            && should_unload(cameras_pos@, chunk, world.unload_radius as int) by {
        if loaded@.contains(chunk) {
            let j = choose|j: int| 0 <= j < loaded@.len() && loaded@[j] == chunk;
        }
    }
    chunks_to_unload
}

/// Whether `chunk` has to be meshed again because the loaded chunk `changed`
/// came or went: it is that chunk or one of the four beside it.
pub open spec fn is_touched_by(chunk: (i32, i32, i32), changed: (i32, i32, i32)) -> bool {
    chunk == changed || spec_neighbor_chunks(changed).contains(chunk)
}

/// Takes the chunks of `chunks_to_unload` that are loaded out of the loaded
/// chunks, and marks each of them and the four chunks beside it to be
/// meshed again.
pub fn unload_chunks(world: &mut World, chunks_to_unload: &ChunkSet)
    requires
        old(world).is_valid(),
        chunks_to_unload.is_valid(),
    ensures
        final(world).is_valid(),
        old(world).has_limits_of(final(world)),
        final(world).chunks_in_generation@ == old(world).chunks_in_generation@,
        old(world).is_within_capacity() ==> final(world).is_within_capacity(),
        final(world).loaded_chunks@ == old(world).loaded_chunks@.difference(chunks_to_unload@),
        forall|chunk: (i32, i32, i32)|
            final(world).chunks_to_render@.contains(chunk) <==> old(
                world,
            ).chunks_to_render@.contains(chunk) || exists|unloaded: (i32, i32, i32)|
                chunks_to_unload@.contains(unloaded) && old(world).loaded_chunks@.contains(unloaded)
                    && is_touched_by(chunk, unloaded),
{
    let to_unload = chunks_to_unload.to_vec();
    for i in 0..to_unload.len()
        invariant
            world.is_valid(),
            old(world).is_valid(),
            old(world).has_limits_of(world),
            to_unload@.no_duplicates(),
            to_unload@.to_set() == chunks_to_unload@,
            world.chunks_in_generation@ == old(world).chunks_in_generation@,
            forall|chunk: (i32, i32, i32)|
                world.loaded_chunks@.contains(chunk) <==> old(world).loaded_chunks@.contains(chunk)
                    && !(exists|j: int| 0 <= j < i && to_unload@[j] == chunk),
            forall|chunk: (i32, i32, i32)|
                world.chunks_to_render@.contains(chunk) <==> old(
                    world,
                ).chunks_to_render@.contains(chunk) || exists|j: int|
                    0 <= j < i && old(world).loaded_chunks@.contains(to_unload@[j])
                        && is_touched_by(chunk, #[trigger] to_unload@[j]),
    {
        let chunk_coords = to_unload[i];
        let ghost loaded_before = world.loaded_chunks@;
        let ghost to_render_before = world.chunks_to_render@;
        if world.loaded_chunks.remove(&chunk_coords) {
            assert(old(world).loaded_chunks@.contains(chunk_coords));
            let chunks_to_rerender = get_neighbor_chunks(&chunk_coords);
            world.chunks_to_render.extend(&chunks_to_rerender);
            world.chunks_to_render.insert(chunk_coords);
            assert forall|chunk: (i32, i32, i32)|
                world.chunks_to_render@.contains(chunk) <==> old(
                    world,
                ).chunks_to_render@.contains(chunk) || exists|j: int|
                    0 <= j < i + 1 && old(world).loaded_chunks@.contains(to_unload@[j])
                        && is_touched_by(chunk, #[trigger] to_unload@[j]) by {
                if world.chunks_to_render@.contains(chunk) && !to_render_before.contains(chunk) {
                    assert(is_touched_by(chunk, to_unload@[i as int]));
                }
            }
        } else {
            assert(!loaded_before.contains(chunk_coords));
            assert(!old(world).loaded_chunks@.contains(chunk_coords)) by {
                if old(world).loaded_chunks@.contains(chunk_coords) {
                    let j = choose|j: int| 0 <= j < i && to_unload@[j] == chunk_coords;
                    assert(to_unload@[j] == to_unload@[i as int]);
                }
            }
        }
    }
    assert forall|chunk: (i32, i32, i32)|
        world.loaded_chunks@.contains(chunk) <==> old(world).loaded_chunks@.difference(
            chunks_to_unload@,
        ).contains(chunk) by {
        if chunks_to_unload@.contains(chunk) {
            assert(to_unload@.contains(chunk));
            let j = choose|j: int| 0 <= j < to_unload@.len() && to_unload@[j] == chunk;
        }
    }
    assert(world.loaded_chunks@ =~= old(world).loaded_chunks@.difference(chunks_to_unload@));
    assert forall|chunk: (i32, i32, i32)|
        world.chunks_to_render@.contains(chunk) <==> old(world).chunks_to_render@.contains(
            chunk,
        ) || exists|unloaded: (i32, i32, i32)|
            chunks_to_unload@.contains(unloaded) && old(world).loaded_chunks@.contains(unloaded)
                && is_touched_by(chunk, unloaded) by {
        if world.chunks_to_render@.contains(chunk) && !old(world).chunks_to_render@.contains(
            chunk,
        ) {
            let j = choose|j: int|
                0 <= j < to_unload@.len() && old(world).loaded_chunks@.contains(to_unload@[j])
                    && is_touched_by(chunk, #[trigger] to_unload@[j]);
            assert(to_unload@.contains(to_unload@[j]));
        }
        if exists|unloaded: (i32, i32, i32)|
            chunks_to_unload@.contains(unloaded) && old(world).loaded_chunks@.contains(unloaded)
                && is_touched_by(chunk, unloaded) {
            let unloaded = choose|unloaded: (i32, i32, i32)|
                chunks_to_unload@.contains(unloaded) && old(world).loaded_chunks@.contains(
                    unloaded,
                ) && is_touched_by(chunk, unloaded);
            assert(to_unload@.contains(unloaded));
            let j = choose|j: int| 0 <= j < to_unload@.len() && to_unload@[j] == unloaded;
            assert(is_touched_by(chunk, to_unload@[j]));
        }
    }
}

/// Takes a chunk whose generation has ended into the loaded chunks, out of
/// the chunks in generation, and marks it and the four chunks beside it to
/// be meshed again.
pub fn load_generated_chunk(world: &mut World, computed_chunk_coords: (i32, i32, i32))
    requires
        old(world).is_valid(),
        has_neighbors(computed_chunk_coords),
    ensures
        final(world).is_valid(),
        old(world).has_limits_of(final(world)),
        final(world).loaded_chunks@ == old(world).loaded_chunks@.insert(computed_chunk_coords),
        final(world).chunks_in_generation@ == old(world).chunks_in_generation@.remove(
            computed_chunk_coords,
        ),
        final(world).chunks_to_render@ == old(world).chunks_to_render@.union(
            spec_neighbor_chunks(computed_chunk_coords),
        ).insert(computed_chunk_coords),
        old(world).is_within_capacity() ==> final(world).is_within_capacity(),
{
    let ghost generating_before = world.chunks_in_generation@;
    let generating_count = world.chunks_in_generation.len();
    world.loaded_chunks.insert(computed_chunk_coords);
    let chunks_to_rerender = get_neighbor_chunks(&computed_chunk_coords);
    world.chunks_to_render.extend(&chunks_to_rerender);
    world.chunks_to_render.insert(computed_chunk_coords);
    world.chunks_in_generation.remove(&computed_chunk_coords);
    proof {
        if generating_before.contains(computed_chunk_coords) {
            assert(generating_before.remove(computed_chunk_coords).len()
                == generating_before.len() - 1);
        }
    }
}

/// The chunks that have to be meshed now: those marked to be meshed again
/// that are loaded.
pub fn get_chunks_to_render(world: &World) -> (chunks_to_render: ChunkSet)
    requires
        world.is_valid(),
    ensures
        chunks_to_render.is_valid(),
        chunks_to_render@ == world.chunks_to_render@.intersect(world.loaded_chunks@),
{
    let marked = world.chunks_to_render.to_vec();
    let mut chunks_to_render = ChunkSet::new();
    for i in 0..marked.len()
        invariant
            marked@.to_set() == world.chunks_to_render@,
            chunks_to_render.is_valid(),
            forall|chunk: (i32, i32, i32)|
                chunks_to_render@.contains(chunk) <==> world.loaded_chunks@.contains(chunk) && (
                exists|j: int| 0 <= j < i && marked@[j] == chunk),
    {
        let chunk = marked[i];
        if world.loaded_chunks.contains(&chunk) {
            chunks_to_render.insert(chunk);
        }
    }
    assert forall|chunk: (i32, i32, i32)|
        chunks_to_render@.contains(chunk) <==> world.chunks_to_render@.intersect(
            world.loaded_chunks@,
        ).contains(chunk) by {
        if marked@.contains(chunk) {
            let j = choose|j: int| 0 <= j < marked@.len() && marked@[j] == chunk;
        }
    }
    assert(chunks_to_render@ =~= world.chunks_to_render@.intersect(world.loaded_chunks@));
    chunks_to_render
}

/// A chunk in range of a viewpoint lies less than `radius` chunks from the
/// viewpoint's chunk along each axis.
pub proof fn lemma_in_range_is_near(camera_pos: Position, chunk: (i32, i32, i32), radius: int)
    requires
        0 <= radius,
        is_in_range(camera_pos, chunk, radius),
    ensures
        -radius < (chunk.0 - on_grid(camera_pos.x)) / 16 < radius,
        -radius < (chunk.2 - on_grid(camera_pos.z)) / 16 < radius,
{
    let offset_x = chunk.0 - on_grid(camera_pos.x);
    let offset_z = chunk.2 - on_grid(camera_pos.z);
    assert(-16 * radius < offset_x < 16 * radius && -16 * radius < offset_z < 16 * radius)
        by (nonlinear_arith)
        requires
            0 <= radius,
            offset_x * offset_x + offset_z * offset_z < (16 * radius) * (16 * radius),
    ;
}

/// Whether the scan around a viewpoint has passed a chunk in range when it
/// stands at column `x` and row `z` of the grid of chunks around the
/// viewpoint.
pub open spec fn is_scanned(
    camera_pos: Position,
    chunk: (i32, i32, i32),
    radius: int,
    x: int,
    z: int,
) -> bool {
    let column = (chunk.0 - on_grid(camera_pos.x)) / 16;
    let row = (chunk.2 - on_grid(camera_pos.z)) / 16;
    is_in_range(camera_pos, chunk, radius) && (column < x || (column == x && row < z))
}

/// The chunks in range of some viewpoint that are neither loaded nor in
/// generation.
pub fn get_chunks_to_load(world: &World, cameras_pos: &Vec<Position>) -> (chunks_to_load: ChunkSet)
    requires
        world.is_valid(),
        forall|i: int|
            0 <= i < cameras_pos@.len() ==> can_scan(
                #[trigger] cameras_pos@[i],
                world.render_radius as int,
            ),
    ensures
        chunks_to_load.is_valid(),
        forall|chunk: (i32, i32, i32)|
            chunks_to_load@.contains(chunk) <==> should_load(
                cameras_pos@,
                chunk,
                world.render_radius as int,
            ) && !world.loaded_chunks@.contains(chunk) && !world.chunks_in_generation@.contains(
                chunk,
            ),
        forall|chunk: (i32, i32, i32)| #[trigger]
            chunks_to_load@.contains(chunk) ==> is_on_grid(chunk),
{
    let mut chunks_to_load = ChunkSet::new();
    let radius = world.render_radius;
    let reach: i128 = 16 * (radius as i128);
    assert(0 <= reach * reach <= 0x10_0000_0000 * 0x10_0000_0000) by (nonlinear_arith)
        requires
            0 <= reach <= 0x10_0000_0000,
    ;
    let limit: i128 = reach * reach;

    for c in 0..cameras_pos.len()
        invariant
            world.is_valid(),
            radius == world.render_radius,
            limit == (16 * radius) * (16 * radius),
            forall|i: int|
                0 <= i < cameras_pos@.len() ==> can_scan(#[trigger] cameras_pos@[i], radius as int),
            chunks_to_load.is_valid(),
            forall|chunk: (i32, i32, i32)|
                chunks_to_load@.contains(chunk) <==> (exists|j: int|
                    0 <= j < c && is_in_range(#[trigger] cameras_pos@[j], chunk, radius as int))
                    && !world.loaded_chunks@.contains(chunk)
                    && !world.chunks_in_generation@.contains(chunk),
    {
        let camera_pos = cameras_pos[c];
        let camera_chunk_x = (camera_pos.x / 16) * 16;
        let camera_chunk_z = (camera_pos.z / 16) * 16;
        assert(can_scan(cameras_pos@[c as int], radius as int));
        assert forall|chunk: (i32, i32, i32)| !#[trigger] is_scanned(
            camera_pos,
            chunk,
            radius as int,
            -radius as int,
            -radius as int,
        ) by {
            if is_in_range(camera_pos, chunk, radius as int) {
                lemma_in_range_is_near(camera_pos, chunk, radius as int);
            }
        }

        for x in (-radius)..radius
            invariant
                world.is_valid(),
                0 <= radius == world.render_radius,
                limit == (16 * radius) * (16 * radius),
                c < cameras_pos@.len(),
                camera_pos == cameras_pos@[c as int],
                camera_chunk_x == on_grid(camera_pos.x),
                camera_chunk_z == on_grid(camera_pos.z),
                can_scan(camera_pos, radius as int),
                chunks_to_load.is_valid(),
                forall|chunk: (i32, i32, i32)|
                    chunks_to_load@.contains(chunk) <==> ((exists|j: int|
                        0 <= j < c && is_in_range(
                            #[trigger] cameras_pos@[j],
                            chunk,
                            radius as int,
                        )) || is_scanned(camera_pos, chunk, radius as int, x as int, -radius as int))
                        && !world.loaded_chunks@.contains(chunk)
                        && !world.chunks_in_generation@.contains(chunk),
        {
            for z in (-radius)..radius
                invariant
                    world.is_valid(),
                    0 <= radius == world.render_radius,
                    -radius <= x < radius,
                    limit == (16 * radius) * (16 * radius),
                    c < cameras_pos@.len(),
                    camera_pos == cameras_pos@[c as int],
                    camera_chunk_x == on_grid(camera_pos.x),
                    camera_chunk_z == on_grid(camera_pos.z),
                    can_scan(camera_pos, radius as int),
                    chunks_to_load.is_valid(),
                    forall|chunk: (i32, i32, i32)|
                        chunks_to_load@.contains(chunk) <==> ((exists|j: int|
                            0 <= j < c && is_in_range(
                                #[trigger] cameras_pos@[j],
                                chunk,
                                radius as int,
                            )) || is_scanned(camera_pos, chunk, radius as int, x as int, z as int))
                            && !world.loaded_chunks@.contains(chunk)
                            && !world.chunks_in_generation@.contains(chunk),
            {
                let offset_x: i128 = 16 * (x as i128);
                let offset_z: i128 = 16 * (z as i128);
                assert(0 <= offset_x * offset_x <= 0x10_0000_0000 * 0x10_0000_0000)
                    by (nonlinear_arith)
                    requires
                        -0x10_0000_0000 <= offset_x <= 0x10_0000_0000,
                ;
                assert(0 <= offset_z * offset_z <= 0x10_0000_0000 * 0x10_0000_0000)
                    by (nonlinear_arith)
                    requires
                        -0x10_0000_0000 <= offset_z <= 0x10_0000_0000,
                ;
                let ghost before = chunks_to_load@;
                let ghost here = (
                    (camera_chunk_x + 16 * x) as i32,
                    0i32,
                    (camera_chunk_z + 16 * z) as i32,
                );
                if offset_x * offset_x + offset_z * offset_z < limit {
                    assert(-16 * radius < offset_x < 16 * radius && -16 * radius < offset_z < 16
                        * radius) by (nonlinear_arith)
                        requires
                            0 <= radius,
                            offset_x * offset_x + offset_z * offset_z < (16 * radius) * (16
                                * radius),
                    ;
                    let chunk_x: i64 = camera_chunk_x as i64 + 16 * (x as i64);
                    let chunk_z: i64 = camera_chunk_z as i64 + 16 * (z as i64);
                    let chunk = (chunk_x as i32, 0, chunk_z as i32);
                    assert(chunk == here);
                    assert(is_in_range(camera_pos, chunk, radius as int));
                    if !world.loaded_chunks.contains(&chunk)
                        && !world.chunks_in_generation.contains(&chunk) {
                        chunks_to_load.insert(chunk);
                    }
                }
                assert forall|chunk: (i32, i32, i32)|
                    is_scanned(camera_pos, chunk, radius as int, x as int, z + 1) <==> is_scanned(
                        camera_pos,
                        chunk,
                        radius as int,
                        x as int,
                        z as int,
                    ) || (chunk == here && offset_x * offset_x + offset_z * offset_z < limit) by {
                    if is_in_range(camera_pos, chunk, radius as int) {
                        let column = (chunk.0 - on_grid(camera_pos.x)) / 16;
                        let row = (chunk.2 - on_grid(camera_pos.z)) / 16;
                        if column == x && row == z {
                            assert(chunk.0 - on_grid(camera_pos.x) == 16 * x);
                            assert(chunk.2 - on_grid(camera_pos.z) == 16 * z);
                            assert(chunk == here);
                        }
                    }
                }
            }
            assert forall|chunk: (i32, i32, i32)|
                is_scanned(camera_pos, chunk, radius as int, x as int, radius as int)
                    <==> is_scanned(camera_pos, chunk, radius as int, x + 1, -radius as int) by {
                if is_in_range(camera_pos, chunk, radius as int) {
                    lemma_in_range_is_near(camera_pos, chunk, radius as int);
                }
            }
        }
        assert forall|chunk: (i32, i32, i32)|
            is_scanned(camera_pos, chunk, radius as int, radius as int, -radius as int)
                <==> is_in_range(camera_pos, chunk, radius as int) by {
            if is_in_range(camera_pos, chunk, radius as int) {
                lemma_in_range_is_near(camera_pos, chunk, radius as int);
            }
        }
    }
    chunks_to_load
}

/// Where a chunk with `score` goes into a list in ascending order of score:
/// behind the last chunk whose score is not higher.
pub open spec fn insertion_point(sorted: Seq<RatedChunk>, score: u32) -> int
    decreases sorted.len(),
{
    if sorted.len() == 0 || sorted.last().score <= score {
        sorted.len() as int
    } else {
        insertion_point(sorted.drop_last(), score)
    }
}

/// The rated chunks in ascending order of score; chunks of equal score
/// stay in the order they were given in.
pub open spec fn sorted_by_score(rated_chunks: Seq<RatedChunk>) -> Seq<RatedChunk>
    decreases rated_chunks.len(),
{
    if rated_chunks.len() == 0 {
        Seq::empty()
    } else {
        let before = sorted_by_score(rated_chunks.drop_last());
        before.insert(insertion_point(before, rated_chunks.last().score), rated_chunks.last())
    }
}

/// Whether the scores of a list ascend.
pub open spec fn is_ascending(rated_chunks: Seq<RatedChunk>) -> bool {
    forall|i: int, j: int|
        0 <= i <= j < rated_chunks.len() ==> rated_chunks[i].score <= rated_chunks[j].score
}

/// The insertion point is the one place that has only higher scores behind
/// it and no higher score just before it.
pub proof fn lemma_insertion_point(sorted: Seq<RatedChunk>, score: u32, place: int)
    requires
        0 <= place <= sorted.len(),
        forall|j: int| place <= j < sorted.len() ==> sorted[j].score > score,
        place > 0 ==> sorted[place - 1].score <= score,
    ensures
        insertion_point(sorted, score) == place,
    decreases sorted.len(),
{
    if sorted.len() > 0 && sorted.last().score > score {
        lemma_insertion_point(sorted.drop_last(), score, place);
    }
}

/// The insertion point lies in the list or at its end, has only higher
/// scores behind it and no higher score just before it.
pub proof fn lemma_insertion_point_fits(sorted: Seq<RatedChunk>, score: u32)
    ensures
        0 <= insertion_point(sorted, score) <= sorted.len(),
        forall|j: int|
            insertion_point(sorted, score) <= j < sorted.len() ==> sorted[j].score > score,
        insertion_point(sorted, score) > 0 ==> sorted[insertion_point(sorted, score) - 1].score
            <= score,
    decreases sorted.len(),
{
    if sorted.len() > 0 && sorted.last().score > score {
        lemma_insertion_point_fits(sorted.drop_last(), score);
        let place = insertion_point(sorted.drop_last(), score);
        assert forall|j: int| place <= j < sorted.len() implies sorted[j].score > score by {
            if j < sorted.len() - 1 {
                assert(sorted.drop_last()[j].score > score);
            }
        }
        if place > 0 {
            assert(sorted.drop_last()[place - 1] == sorted[place - 1]);
        }
    }
}

/// Sorting by score keeps every rated chunk, as often as it was given, and
/// puts the scores in ascending order.
pub proof fn lemma_sorted_by_score(rated_chunks: Seq<RatedChunk>)
    ensures
        sorted_by_score(rated_chunks).len() == rated_chunks.len(),
        sorted_by_score(rated_chunks).to_multiset() == rated_chunks.to_multiset(),
        is_ascending(sorted_by_score(rated_chunks)),
    decreases rated_chunks.len(),
{
    broadcast use vstd::seq_lib::to_multiset_insert, vstd::seq_lib::to_multiset_build;

    if rated_chunks.len() == 0 {
        assert(rated_chunks =~= Seq::empty());
    } else {
        let before = sorted_by_score(rated_chunks.drop_last());
        let last = rated_chunks.last();
        let place = insertion_point(before, last.score);
        lemma_sorted_by_score(rated_chunks.drop_last());
        lemma_insertion_point_fits(before, last.score);
        let after = before.insert(place, last);
        assert(rated_chunks =~= rated_chunks.drop_last().push(last));
        assert(after.to_multiset() == rated_chunks.to_multiset());
        assert forall|i: int, j: int| 0 <= i <= j < after.len() implies after[i].score
            <= after[j].score by {
            if i < place && j > place {
                assert(before[i].score <= before[j - 1].score);
            } else if i < place && j < place {
                assert(before[i].score <= before[j].score);
            } else if i > place {
                assert(before[i - 1].score <= before[j - 1].score);
            } else if i < place && j == place {
                assert(before[i].score <= before[place - 1].score);
            }
        }
    }
}

/// The rated chunks in ascending order of score.
fn prioritize(rated_chunks: &Vec<RatedChunk>) -> (chunks_prioritized: Vec<RatedChunk>)
    ensures
        chunks_prioritized@ == sorted_by_score(rated_chunks@),
        chunks_prioritized@.len() == rated_chunks@.len(),
{
    let mut chunks_prioritized: Vec<RatedChunk> = Vec::with_capacity(rated_chunks.len());
    for i in 0..rated_chunks.len()
        invariant
            chunks_prioritized@ == sorted_by_score(rated_chunks@.subrange(0, i as int)),
            chunks_prioritized@.len() == i,
    {
        let rated = rated_chunks[i];
        let mut place = chunks_prioritized.len();
        while place > 0 && chunks_prioritized[place - 1].score > rated.score
            invariant
                place <= chunks_prioritized@.len(),
                forall|j: int|
                    place <= j < chunks_prioritized@.len() ==> chunks_prioritized@[j].score
                        > rated.score,
            decreases place,
        {
            place -= 1;
        }
        proof {
            lemma_insertion_point(chunks_prioritized@, rated.score, place as int);
            let given = rated_chunks@.subrange(0, i + 1);
            assert(given.drop_last() =~= rated_chunks@.subrange(0, i as int));
            assert(given.last() == rated);
        }
        chunks_prioritized.insert(place, rated);
    }
    assert(rated_chunks@.subrange(0, rated_chunks@.len() as int) =~= rated_chunks@);
    chunks_prioritized
}

/// How many chunks may be put into generation.
pub open spec fn free_capacity(world: &World) -> int {
    if world.chunks_in_generation@.len() >= world.max_generating {
        0
    } else {
        world.max_generating - world.chunks_in_generation@.len()
    }
}

/// The origins of the first `capacity` rated chunks in ascending order of
/// score, or of all of them where there are fewer.
pub open spec fn chosen_chunks(rated_chunks: Seq<RatedChunk>, capacity: int) -> Seq<
    (i32, i32, i32),
> {
    Seq::new(
        (if capacity < rated_chunks.len() {
            capacity
        } else {
            rated_chunks.len() as int
        }) as nat,
        |i: int| sorted_by_score(rated_chunks)[i].coords,
    )
}

/// Puts as many of the rated chunks into generation as there is room for,
/// those with the lowest scores first, and returns their origins in the
/// order of their scores: the chunks to generate now.
pub fn start_generating_chunks(
    world: &mut World,
    rated_chunks_to_generate: &Vec<RatedChunk>,
) -> (chunks_to_generate: Vec<(i32, i32, i32)>)
    requires
        old(world).is_valid(),
    ensures
        final(world).is_valid(),
        old(world).has_limits_of(final(world)),
        final(world).loaded_chunks@ == old(world).loaded_chunks@,
        final(world).chunks_to_render@ == old(world).chunks_to_render@,
        chunks_to_generate@ == chosen_chunks(
            rated_chunks_to_generate@,
            free_capacity(old(world)),
        ),
        final(world).chunks_in_generation@ == old(world).chunks_in_generation@.union(
            chunks_to_generate@.to_set(),
        ),
        old(world).is_within_capacity() ==> final(world).is_within_capacity(),
{
    let mut chunks_to_generate: Vec<(i32, i32, i32)> = Vec::new();
    let nb_chunks_in_generation = world.chunks_in_generation.len();
    if nb_chunks_in_generation >= world.max_generating {
        assert(chunks_to_generate@ =~= chosen_chunks(rated_chunks_to_generate@, 0));
        assert(world.chunks_in_generation@ =~= world.chunks_in_generation@.union(
            chunks_to_generate@.to_set(),
        ));
        return chunks_to_generate;
    }
    let nb_chunks_to_generate = world.max_generating - nb_chunks_in_generation;

    let chunks_prioritized = prioritize(rated_chunks_to_generate);
    let count = if nb_chunks_to_generate < chunks_prioritized.len() {
        nb_chunks_to_generate
    } else {
        chunks_prioritized.len()
    };

    for i in 0..count
        invariant
            world.is_valid(),
            old(world).has_limits_of(world),
            world.loaded_chunks@ == old(world).loaded_chunks@,
            world.chunks_to_render@ == old(world).chunks_to_render@,
            count <= chunks_prioritized@.len(),
            count <= nb_chunks_to_generate,
            nb_chunks_in_generation + nb_chunks_to_generate == world.max_generating,
            nb_chunks_in_generation == old(world).chunks_in_generation@.len(),
            chunks_prioritized@ == sorted_by_score(rated_chunks_to_generate@),
            chunks_to_generate@.len() == i,
            forall|j: int| 0 <= j < i ==> chunks_to_generate@[j] == chunks_prioritized@[j].coords,
            world.chunks_in_generation@ == old(world).chunks_in_generation@.union(
                chunks_to_generate@.to_set(),
            ),
            world.chunks_in_generation@.len() <= nb_chunks_in_generation + i,
    {
        let chunk_coords = chunks_prioritized[i].coords;
        proof {
            world.chunks_in_generation.lemma_is_finite();
            chunks_to_generate@.lemma_push_to_set_commute(chunk_coords);
        }
        world.chunks_in_generation.insert(chunk_coords);
        chunks_to_generate.push(chunk_coords);
        assert(world.chunks_in_generation@ =~= old(world).chunks_in_generation@.union(
            chunks_to_generate@.to_set(),
        ));
    }
    assert(chunks_to_generate@ =~= chosen_chunks(
        rated_chunks_to_generate@,
        free_capacity(old(world)),
    ));
    chunks_to_generate
}

/// For a viewpoint that stands on the chunk grid, no chunk is at once near
/// enough to be loaded and far enough to be unloaded, whenever chunks are
/// unloaded no nearer than they are loaded.
pub proof fn lemma_hysteresis_on_grid(
    camera_pos: Position,
    chunk: (i32, i32, i32),
    render_radius: int,
    unload_radius: int,
)
    requires
        0 <= render_radius <= unload_radius,
        on_grid(camera_pos.x) == camera_pos.x,
        on_grid(camera_pos.z) == camera_pos.z,
        is_in_range(camera_pos, chunk, render_radius),
    ensures
        !is_out_of_range(camera_pos, chunk, unload_radius),
{
    let offset_x = chunk.0 - camera_pos.x;
    let offset_z = chunk.2 - camera_pos.z;
    assert(squared_distance(camera_pos, chunk) == offset_x * offset_x + offset_z * offset_z)
        by (nonlinear_arith)
        requires
            offset_x == chunk.0 - camera_pos.x,
            offset_z == chunk.2 - camera_pos.z,
            squared_distance(camera_pos, chunk) == (camera_pos.x - chunk.0) * (camera_pos.x
                - chunk.0) + (camera_pos.z - chunk.2) * (camera_pos.z - chunk.2),
    ;
    assert((16 * render_radius) * (16 * render_radius) <= (16 * unload_radius + 1) * (16
        * unload_radius + 1)) by (nonlinear_arith)
        requires
            0 <= render_radius <= unload_radius,
    ;
}

/// The square of an offset within `near` that is moved by a step of less
/// than a chunk.
proof fn lemma_step_aside(offset: int, step: int, near: int)
    requires
        -near < offset < near,
        -15 <= step <= 15,
    ensures
        (offset + step) * (offset + step) <= offset * offset + 30 * near + 225,
{
    assert(offset * step <= 15 * near) by (nonlinear_arith)
        requires
            -near < offset < near,
            -15 <= step <= 15,
    ;
    assert(step * step <= 225) by (nonlinear_arith)
        requires
            -15 <= step <= 15,
    ;
    assert((offset + step) * (offset + step) == offset * offset + 2 * (offset * step) + step
        * step) by (nonlinear_arith);
}

/// Wherever a viewpoint stands, no chunk is at once near enough to be
/// loaded and far enough to be unloaded, whenever chunks are unloaded at
/// least two chunks further out than they are loaded.
pub proof fn lemma_hysteresis(
    camera_pos: Position,
    chunk: (i32, i32, i32),
    render_radius: int,
    unload_radius: int,
)
    requires
        0 <= render_radius,
        render_radius + 2 <= unload_radius,
        is_in_range(camera_pos, chunk, render_radius),
    ensures
        !is_out_of_range(camera_pos, chunk, unload_radius),
{
    let offset_x = chunk.0 - on_grid(camera_pos.x);
    let offset_z = chunk.2 - on_grid(camera_pos.z);
    let step_x = on_grid(camera_pos.x) - camera_pos.x;
    let step_z = on_grid(camera_pos.z) - camera_pos.z;
    assert(-15 <= step_x <= 15 && -15 <= step_z <= 15);
    assert(-16 * render_radius < offset_x < 16 * render_radius && -16 * render_radius < offset_z
        < 16 * render_radius) by (nonlinear_arith)
        requires
            0 <= render_radius,
            offset_x * offset_x + offset_z * offset_z < (16 * render_radius) * (16
                * render_radius),
    ;
    let near = 16 * render_radius;
    let far = 16 * unload_radius + 1;
    lemma_step_aside(offset_x, step_x, near);
    lemma_step_aside(offset_z, step_z, near);
    assert(far * far >= near * near + 66 * near + 1089) by (nonlinear_arith)
        requires
            0 <= near,
            near + 33 <= far,
    ;
    assert(squared_distance(camera_pos, chunk) == (offset_x + step_x) * (offset_x + step_x) + (
    offset_z + step_z) * (offset_z + step_z)) by (nonlinear_arith)
        requires
            offset_x + step_x == chunk.0 - camera_pos.x,
            offset_z + step_z == chunk.2 - camera_pos.z,
            squared_distance(camera_pos, chunk) == (camera_pos.x - chunk.0) * (camera_pos.x
                - chunk.0) + (camera_pos.z - chunk.2) * (camera_pos.z - chunk.2),
    ;
}

} // verus!
