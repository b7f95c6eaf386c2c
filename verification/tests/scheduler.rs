use voxel_terrain::camera::Position;
use voxel_terrain::chunk_set::ChunkSet;
use voxel_terrain::chunks_manager::{
    get_chunks_to_load, get_chunks_to_render, get_chunks_to_unload, load_generated_chunk,
    start_generating_chunks, unload_chunks, RatedChunk,
};
use voxel_terrain::world::{
    get_neighbor_chunks, World, CHUNK_SIZE_I32, DIST_TO_LOAD_CHUNK, DIST_TO_UNLOAD_CHUNK,
    NB_CHUNKS_MAX_GENERATING_IN_THE_BACKGROUND, RENDER_RADIUS, UNLOAD_RADIUS,
};

fn sorted(set: &ChunkSet) -> Vec<(i32, i32, i32)> {
    let mut chunks = set.to_vec();
    chunks.sort();
    chunks
}

fn set_of(chunks: &[(i32, i32, i32)]) -> ChunkSet {
    let mut set = ChunkSet::new();
    for chunk in chunks {
        set.insert(*chunk);
    }
    set
}

fn at(x: i32, z: i32) -> Position {
    Position { x, y: 70, z }
}

#[test]
fn set_holds_each_chunk_once() {
    let mut set = ChunkSet::new();
    assert_eq!(set.len(), 0);
    assert!(set.insert((16, 0, 0)));
    assert!(set.insert((0, 0, 16)));
    assert!(!set.insert((16, 0, 0)));
    assert_eq!(set.len(), 2);
    assert!(set.contains(&(16, 0, 0)));
    assert!(!set.contains(&(16, 0, 16)));
    assert!(set.remove(&(16, 0, 0)));
    assert!(!set.remove(&(16, 0, 0)));
    assert_eq!(set.to_vec(), vec![(0, 0, 16)]);
    let mut other = set_of(&[(0, 0, 16), (32, 0, 0)]);
    other.extend(&set_of(&[(32, 0, 0), (48, 0, 0), (0, 0, 16)]));
    assert_eq!(sorted(&other), vec![(0, 0, 16), (32, 0, 0), (48, 0, 0)]);
    assert_eq!(sorted(&other.clone()), sorted(&other));
}

#[test]
fn new_world_is_empty_with_the_usual_limits() {
    let world = World::new(7);
    assert_eq!(world.seed, 7);
    assert_eq!(world.render_radius, 16);
    assert_eq!(world.unload_radius, 20);
    assert_eq!(world.max_generating, 1);
    assert_eq!(world.loaded_chunks.len(), 0);
    assert_eq!(world.chunks_in_generation.len(), 0);
    assert_eq!(world.chunks_to_render.len(), 0);
    assert_eq!((CHUNK_SIZE_I32, RENDER_RADIUS, UNLOAD_RADIUS), (16, 16, 20));
    assert_eq!((DIST_TO_LOAD_CHUNK, DIST_TO_UNLOAD_CHUNK), (256, 320));
    assert_eq!(NB_CHUNKS_MAX_GENERATING_IN_THE_BACKGROUND, 1);
}

#[test]
fn world_needs_its_radii_in_order() {
    assert!(World::with_limits(0, 10, 14, 4).is_some());
    assert!(World::with_limits(0, 0, 1, 0).is_some());
    assert!(World::with_limits(0, 10, 10, 4).is_none());
    assert!(World::with_limits(0, 14, 10, 4).is_none());
    assert!(World::with_limits(0, -1, 10, 4).is_none());
    let world = World::with_limits(3, 10, 14, 4).unwrap();
    assert_eq!(
        (world.seed, world.render_radius, world.unload_radius, world.max_generating),
        (3, 10, 14, 4)
    );
}

#[test]
fn neighbors_are_the_four_chunks_beside_in_the_single_layer() {
    let neighbors = get_neighbor_chunks(&(32, 5, -16));
    assert_eq!(sorted(&neighbors), vec![(16, 0, -16), (32, 0, -32), (32, 0, 0), (48, 0, -16)]);
}

#[test]
fn chunks_within_the_load_radius_are_candidates() {
    let world = World::with_limits(0, 2, 4, 1).unwrap();
    let to_load = get_chunks_to_load(&world, &vec![at(5, 20)]);
    // The viewpoint's chunk is (0, 16); the chunks less than two chunks away.
    assert_eq!(
        sorted(&to_load),
        vec![
            (-16, 0, 0), (-16, 0, 16), (-16, 0, 32),
            (0, 0, 0), (0, 0, 16), (0, 0, 32),
            (16, 0, 0), (16, 0, 16), (16, 0, 32),
        ]
    );
    let none = World::with_limits(0, 0, 4, 1).unwrap();
    assert_eq!(get_chunks_to_load(&none, &vec![at(5, 20)]).len(), 0);
    let one = World::with_limits(0, 1, 4, 1).unwrap();
    assert_eq!(get_chunks_to_load(&one, &vec![at(5, 20)]).to_vec(), vec![(0, 0, 16)]);
    assert_eq!(get_chunks_to_load(&world, &Vec::new()).len(), 0);
}

#[test]
fn load_candidates_lie_in_a_circle() {
    let world = World::new(0);
    let to_load = get_chunks_to_load(&world, &vec![at(0, 0)]);
    let mut expected = 0;
    for x in -16..16 {
        for z in -16..16 {
            let inside = x * x + z * z < 16 * 16;
            assert_eq!(to_load.contains(&(16 * x, 0, 16 * z)), inside);
            if inside {
                expected += 1;
            }
        }
    }
    assert_eq!(to_load.len(), expected);
    assert_eq!(expected, 793);
}

#[test]
fn viewpoint_is_moved_towards_zero_onto_the_grid() {
    let world = World::with_limits(0, 1, 4, 1).unwrap();
    assert_eq!(get_chunks_to_load(&world, &vec![at(-5, -20)]).to_vec(), vec![(0, 0, -16)]);
    assert_eq!(get_chunks_to_load(&world, &vec![at(-16, 15)]).to_vec(), vec![(-16, 0, 0)]);
    assert_eq!(get_chunks_to_load(&world, &vec![at(31, -31)]).to_vec(), vec![(16, 0, -16)]);
}

#[test]
fn loaded_and_generating_chunks_are_no_candidates() {
    let mut world = World::with_limits(0, 2, 4, 1).unwrap();
    world.loaded_chunks.insert((0, 0, 0));
    world.loaded_chunks.insert((16, 0, 0));
    world.chunks_in_generation.insert((-16, 0, 0));
    let to_load = get_chunks_to_load(&world, &vec![at(0, 0)]);
    assert_eq!(
        sorted(&to_load),
        vec![(-16, 0, -16), (-16, 0, 16), (0, 0, -16), (0, 0, 16), (16, 0, -16), (16, 0, 16)]
    );
}

#[test]
fn candidates_of_several_viewpoints_are_united() {
    let world = World::with_limits(0, 1, 4, 1).unwrap();
    let to_load = get_chunks_to_load(&world, &vec![at(0, 0), at(1000, 0), at(3, 3)]);
    assert_eq!(sorted(&to_load), vec![(0, 0, 0), (992, 0, 0)]);
}

#[test]
fn chunks_beyond_the_unload_radius_of_every_viewpoint_are_unloaded() {
    let mut world = World::with_limits(0, 2, 4, 1).unwrap();
    for chunk in [(0, 0, 0), (64, 0, 0), (80, 0, 0), (48, 0, 48), (0, 0, -65), (0, 0, -64)] {
        world.loaded_chunks.insert(chunk);
    }
    // Four chunks are 64 blocks: a chunk is unloaded from a whole distance
    // of 65 blocks on.
    let to_unload = get_chunks_to_unload(&world, &vec![at(0, 0)]);
    assert_eq!(sorted(&to_unload), vec![(0, 0, -65), (48, 0, 48), (80, 0, 0)]);
    // A second viewpoint keeps the chunks near it.
    let to_unload = get_chunks_to_unload(&world, &vec![at(0, 0), at(100, 0)]);
    assert_eq!(sorted(&to_unload), vec![(0, 0, -65), (48, 0, 48)]);
    let to_unload = get_chunks_to_unload(&world, &vec![at(0, 0), at(100, 40)]);
    assert_eq!(sorted(&to_unload), vec![(0, 0, -65)]);
    // Without a viewpoint every chunk is out of range.
    assert_eq!(get_chunks_to_unload(&world, &Vec::new()).len(), 6);
}

#[test]
fn distance_is_rounded_down_before_it_is_compared() {
    let mut world = World::with_limits(0, 2, 4, 1).unwrap();
    // 46 * 46 + 46 * 46 = 4232 and 63 * 63 + 16 * 16 = 4225 = 65 * 65 are far
    // enough, 45 * 45 + 46 * 46 = 4141 and 62 * 62 + 16 * 16 = 4100 are not.
    world.loaded_chunks.insert((46, 0, 46));
    world.loaded_chunks.insert((45, 0, 46));
    world.loaded_chunks.insert((62, 0, 16));
    world.loaded_chunks.insert((63, 0, 16));
    let to_unload = get_chunks_to_unload(&world, &vec![at(0, 0)]);
    assert_eq!(sorted(&to_unload), vec![(46, 0, 46), (63, 0, 16)]);
}

#[test]
fn far_viewpoints_do_not_overflow() {
    let mut world = World::new(0);
    world.loaded_chunks.insert((i32::MAX - 16, 0, i32::MAX - 16));
    world.loaded_chunks.insert((i32::MIN + 16, 0, 0));
    let to_unload = get_chunks_to_unload(&world, &vec![at(i32::MIN, i32::MIN)]);
    assert_eq!(sorted(&to_unload), vec![(i32::MIN + 16, 0, 0), (i32::MAX - 16, 0, i32::MAX - 16)]);
    let to_unload = get_chunks_to_unload(&world, &vec![at(i32::MIN, 0)]);
    assert_eq!(sorted(&to_unload), vec![(i32::MAX - 16, 0, i32::MAX - 16)]);
}

#[test]
fn unloading_marks_the_chunk_and_its_neighbors() {
    let mut world = World::new(0);
    for chunk in [(0, 0, 0), (16, 0, 0), (160, 0, 160)] {
        world.loaded_chunks.insert(chunk);
    }
    world.chunks_to_render.insert((800, 0, 800));
    world.chunks_in_generation.insert((16, 0, 16));
    // (320, 0, 0) is not loaded: nothing is done for it.
    unload_chunks(&mut world, &set_of(&[(16, 0, 0), (320, 0, 0)]));
    assert_eq!(sorted(&world.loaded_chunks), vec![(0, 0, 0), (160, 0, 160)]);
    assert_eq!(
        sorted(&world.chunks_to_render),
        vec![(0, 0, 0), (16, 0, -16), (16, 0, 0), (16, 0, 16), (32, 0, 0), (800, 0, 800)]
    );
    assert_eq!(sorted(&world.chunks_in_generation), vec![(16, 0, 16)]);
    // Only the loaded ones are meshed.
    assert_eq!(sorted(&get_chunks_to_render(&world)), vec![(0, 0, 0)]);
}

#[test]
fn generated_chunk_is_loaded_and_marked_with_its_neighbors() {
    let mut world = World::new(0);
    world.chunks_in_generation.insert((32, 0, 16));
    world.loaded_chunks.insert((16, 0, 16));
    load_generated_chunk(&mut world, (32, 0, 16));
    assert_eq!(world.chunks_in_generation.len(), 0);
    assert_eq!(sorted(&world.loaded_chunks), vec![(16, 0, 16), (32, 0, 16)]);
    assert_eq!(
        sorted(&world.chunks_to_render),
        vec![(16, 0, 16), (32, 0, 0), (32, 0, 16), (32, 0, 32), (48, 0, 16)]
    );
    assert_eq!(sorted(&get_chunks_to_render(&world)), vec![(16, 0, 16), (32, 0, 16)]);
    world.chunks_to_render.remove(&(16, 0, 16));
    assert_eq!(sorted(&get_chunks_to_render(&world)), vec![(32, 0, 16)]);
}

fn rated(x: i32, score: u32) -> RatedChunk {
    RatedChunk { coords: (x, 0, 0), score }
}

#[test]
fn lowest_scores_are_generated_first() {
    let mut world = World::with_limits(0, 10, 14, 3).unwrap();
    let candidates = vec![rated(0, 50), rated(16, 10), rated(32, 40), rated(48, 10), rated(64, 5)];
    let started = start_generating_chunks(&mut world, &candidates);
    // Of two chunks with the same score the one given first goes first.
    assert_eq!(started, vec![(64, 0, 0), (16, 0, 0), (48, 0, 0)]);
    assert_eq!(sorted(&world.chunks_in_generation), vec![(16, 0, 0), (48, 0, 0), (64, 0, 0)]);
    // The world is full: nothing more is started.
    let started = start_generating_chunks(&mut world, &vec![rated(0, 50), rated(32, 40)]);
    assert!(started.is_empty());
    assert_eq!(world.chunks_in_generation.len(), 3);
    // One chunk ends: there is room for one.
    load_generated_chunk(&mut world, (16, 0, 0));
    let started = start_generating_chunks(&mut world, &vec![rated(0, 50), rated(32, 40)]);
    assert_eq!(started, vec![(32, 0, 0)]);
    assert_eq!(world.chunks_in_generation.len(), 3);
}

#[test]
fn fewer_candidates_than_room_are_all_generated() {
    let mut world = World::with_limits(0, 10, 14, 8).unwrap();
    let started = start_generating_chunks(&mut world, &vec![rated(32, 2), rated(0, 1)]);
    assert_eq!(started, vec![(0, 0, 0), (32, 0, 0)]);
    let started = start_generating_chunks(&mut world, &Vec::new());
    assert!(started.is_empty());
    assert_eq!(world.chunks_in_generation.len(), 2);
    let mut closed = World::with_limits(0, 10, 14, 0).unwrap();
    assert!(start_generating_chunks(&mut closed, &vec![rated(0, 1)]).is_empty());
}

#[test]
fn chunks_in_generation_never_exceed_the_limit() {
    let mut world = World::new(0);
    let viewpoints = vec![at(0, 0)];
    let mut generated = 0;
    for tick in 0..40 {
        let to_unload = get_chunks_to_unload(&world, &viewpoints);
        unload_chunks(&mut world, &to_unload);
        let to_load = get_chunks_to_load(&world, &viewpoints);
        let candidates: Vec<RatedChunk> = to_load
            .to_vec()
            .into_iter()
            .map(|coords| RatedChunk {
                coords,
                score: (coords.0 * coords.0 + coords.2 * coords.2) as u32,
            })
            .collect();
        let started = start_generating_chunks(&mut world, &candidates);
        assert!(world.chunks_in_generation.len() <= world.max_generating);
        assert!(started.len() <= 1);
        // Every other tick the chunk in generation ends.
        if tick % 2 == 1 {
            for chunk in world.chunks_in_generation.to_vec() {
                load_generated_chunk(&mut world, chunk);
                generated += 1;
            }
        }
        assert!(world.chunks_in_generation.len() <= world.max_generating);
    }
    assert_eq!(generated, 20);
    assert_eq!(world.loaded_chunks.len(), 20);
    assert!(world.loaded_chunks.contains(&(0, 0, 0)));
}

#[test]
fn chunk_between_the_radii_is_neither_loaded_nor_unloaded() {
    let mut world = World::with_limits(0, 10, 14, 1).unwrap();
    let viewpoints = vec![at(0, 0)];
    let chunk = (12 * 16, 0, 0);
    assert!(!get_chunks_to_load(&world, &viewpoints).contains(&chunk));
    world.loaded_chunks.insert(chunk);
    assert!(!get_chunks_to_unload(&world, &viewpoints).contains(&chunk));
    // At ten chunks it is not loaded yet, at nine it is.
    assert!(!get_chunks_to_load(&world, &viewpoints).contains(&(10 * 16, 0, 0)));
    assert!(get_chunks_to_load(&world, &viewpoints).contains(&(9 * 16, 0, 0)));
    // At fourteen chunks it is not unloaded yet, a block further it is.
    world.loaded_chunks.insert((14 * 16, 0, 0));
    world.loaded_chunks.insert((14 * 16 + 1, 0, 0));
    assert_eq!(get_chunks_to_unload(&world, &viewpoints).to_vec(), vec![(14 * 16 + 1, 0, 0)]);
}

#[test]
fn viewpoint_going_to_and_fro_loads_a_chunk_once() {
    let mut world = World::with_limits(0, 10, 14, 1).unwrap();
    let chunk = (0, 0, 0);
    let mut loads = 0;
    let mut unloads = 0;
    for step in 0..20 {
        // Nine chunks away, then thirteen, and back.
        let distance = if step % 2 == 0 { 9 } else { 13 };
        let viewpoints = vec![at(distance * 16, 0)];
        let to_unload = get_chunks_to_unload(&world, &viewpoints);
        if to_unload.contains(&chunk) {
            unloads += 1;
        }
        unload_chunks(&mut world, &to_unload);
        let to_load = get_chunks_to_load(&world, &viewpoints);
        if to_load.contains(&chunk) {
            loads += 1;
            world.chunks_in_generation.insert(chunk);
            load_generated_chunk(&mut world, chunk);
        }
    }
    assert_eq!(loads, 1);
    assert_eq!(unloads, 0);
    assert!(world.loaded_chunks.contains(&chunk));
}
