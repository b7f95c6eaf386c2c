use voxel_terrain::block::{Block, BlockOrientation};
use voxel_terrain::chunk::NB_BLOCKS_PER_CHUNK;
use voxel_terrain::chunk_renderer::blocks_resources::blocks_ids::{
    AIR_BLOCK, DIRT_BLOCK, SAND_BLOCK, STONE_BLOCK,
};
use voxel_terrain::chunk_renderer::greedy_mesh::{
    merge_faces_on_x_axis, merge_faces_on_y_axis, merge_faces_on_z_axis,
};
use voxel_terrain::chunk_renderer::pre_mesh_creator::{
    BlockPreMesh, ChunkPreMesh, ChunkPreMeshOneDirection, NeighborChunks, Stretch,
};

fn block(id: u16) -> Block {
    Block::new(id, BlockOrientation::PositiveX)
}

fn index(x: usize, y: usize, z: usize) -> usize {
    x * 4096 + y * 16 + z
}

fn blocks_with(fill: u16, others: &[(usize, u16)]) -> Vec<Block> {
    let mut blocks = vec![block(fill); NB_BLOCKS_PER_CHUNK];
    for (place, id) in others {
        blocks[*place] = block(*id);
    }
    blocks
}

fn drawn(pre_mesh: &ChunkPreMeshOneDirection) -> Vec<(usize, u16)> {
    (0..NB_BLOCKS_PER_CHUNK)
        .filter(|i| pre_mesh.get_pre_mesh(*i).will_be_rendered())
        .map(|i| (i, pre_mesh.get_pre_mesh(i).get_stretch().get_as_u16()))
        .collect()
}

fn no_neighbors() -> NeighborChunks {
    NeighborChunks { positive_x: None, negative_x: None, positive_z: None, negative_z: None }
}

#[test]
fn stretch_packs_x_then_y_then_z() {
    let stretch = Stretch::from_xyz(2, 3, 4);
    assert_eq!(stretch.get_as_u16(), 0x2034);
    assert_eq!(stretch.get_as_u32(), 0x2034);
    assert_eq!((stretch.get_x(), stretch.get_y(), stretch.get_z()), (2, 3, 4));
    assert_eq!(Stretch::from_xyz(15, 255, 15).get_as_u16(), 0xFFFF);
    assert_eq!(Stretch::new(0xABCD).get_as_u16(), 0xABCD);
    assert_eq!(Stretch::default().get_as_u16(), 0x1011);
}

#[test]
fn stretch_of_sixteen_wraps_in_its_field() {
    // Sixteen along x does not fit four bits.
    assert_eq!(Stretch::from_xyz(16, 1, 1).get_as_u16(), 0x0011);
    // Sixteen along z runs over into the lowest bit of y.
    assert_eq!(Stretch::from_xyz(1, 1, 16).get_as_u16(), 0x1010);
    assert_eq!(Stretch::from_xyz(1, 2, 16).get_as_u16(), 0x1030);
}

#[test]
fn zero_field_reads_as_the_whole_chunk() {
    assert_eq!(Stretch::new(0).get_final_stretch(), (16, 256, 16));
    assert_eq!(Stretch::new(0x1011).get_final_stretch(), (1, 1, 1));
    assert_eq!(Stretch::new(0x2034).get_final_stretch(), (2, 3, 4));
    assert_eq!(Stretch::new(0x0FF0).get_final_stretch(), (16, 255, 16));
    assert_eq!(Stretch::new(0xF00F).get_final_stretch(), (15, 256, 15));
}

#[test]
fn stretch_setters_replace_one_field() {
    let mut stretch = Stretch::new(0x2034);
    stretch.set_x(9);
    assert_eq!(stretch.get_as_u16(), 0x9034);
    stretch.set_y(0xAB);
    assert_eq!(stretch.get_as_u16(), 0x9AB4);
    stretch.set_z(7);
    assert_eq!(stretch.get_as_u16(), 0x9AB7);
    stretch.set_x(16 + 3);
    assert_eq!(stretch.get_as_u16(), 0x3AB7);
    stretch.set_z(0x10);
    assert_eq!(stretch.get_as_u16(), 0x3AB0 | 0x10);
}

#[test]
fn cell_holds_block_above_stretch() {
    let cell = BlockPreMesh::new(Block(0xBEEF), Stretch::new(0x1234));
    assert_eq!(cell.0, 0xBEEF_1234);
    assert_eq!(cell.get_block(), Block(0xBEEF));
    assert_eq!(cell.get_stretch().get_as_u16(), 0x1234);
    assert!(cell.will_be_rendered());
    let mut hidden = cell;
    hidden.should_not_be_rendered();
    assert_eq!(hidden.0, 0xBEEF_0000);
    assert!(!hidden.will_be_rendered());
    assert_eq!(BlockPreMesh::default().0, 0);
    assert!(!BlockPreMesh::default().will_be_rendered());
}

#[test]
fn row_of_equal_faces_becomes_one_face() {
    // Five blocks of dirt in a row along z, in air.
    let others: Vec<(usize, u16)> = (3..8).map(|z| (index(2, 50, z), DIRT_BLOCK)).collect();
    let blocks = blocks_with(AIR_BLOCK, &others);
    let mut positive = ChunkPreMeshOneDirection::new(&blocks);
    let mut negative = positive.clone();
    merge_faces_on_x_axis(&mut positive, &mut negative);
    assert_eq!(drawn(&positive), vec![(index(2, 50, 7), 0x1015)]);
    assert_eq!(drawn(&negative), vec![(index(2, 50, 7), 0x1015)]);

    let mut positive = ChunkPreMeshOneDirection::new(&blocks);
    let mut negative = positive.clone();
    merge_faces_on_y_axis(&mut positive, &mut negative);
    assert_eq!(drawn(&positive), vec![(index(2, 50, 7), 0x1015)]);

    // The faces that look along z do not merge along z.
    let mut positive = ChunkPreMeshOneDirection::new(&blocks);
    let mut negative = positive.clone();
    merge_faces_on_z_axis(&mut positive, &mut negative);
    assert_eq!(drawn(&positive).len(), 5);
    assert!(drawn(&negative).iter().all(|(_, stretch)| *stretch == 0x1011));
}

#[test]
fn rectangle_of_equal_faces_becomes_one_face() {
    // 3 along x, 4 along y, 5 along z.
    let mut others = Vec::new();
    for x in 1..4 {
        for y in 10..14 {
            for z in 3..8 {
                others.push((index(x, y, z), STONE_BLOCK));
            }
        }
    }
    let blocks = blocks_with(AIR_BLOCK, &others);
    let last = |x: usize| index(x, 13, 7);

    let mut positive = ChunkPreMeshOneDirection::new(&blocks);
    let mut negative = positive.clone();
    merge_faces_on_x_axis(&mut positive, &mut negative);
    // No culling was done: each slab in x keeps its face of 4 x 5.
    assert_eq!(drawn(&positive), vec![(last(1), 0x1045), (last(2), 0x1045), (last(3), 0x1045)]);

    let mut positive = ChunkPreMeshOneDirection::new(&blocks);
    let mut negative = positive.clone();
    merge_faces_on_y_axis(&mut positive, &mut negative);
    let expected: Vec<(usize, u16)> = (10..14).map(|y| (index(3, y, 7), 0x3015)).collect();
    assert_eq!(drawn(&positive), expected);

    let mut positive = ChunkPreMeshOneDirection::new(&blocks);
    let mut negative = positive.clone();
    merge_faces_on_z_axis(&mut positive, &mut negative);
    let expected: Vec<(usize, u16)> = (3..8).map(|z| (index(3, 13, z), 0x3041)).collect();
    assert_eq!(drawn(&negative), expected);
}

#[test]
fn faces_of_other_blocks_or_other_widths_do_not_merge() {
    // Two rows along z, one above the other: the lower is 3 long, the upper
    // is 2 long and ends at the same place; and a row of sand beside dirt.
    let blocks = blocks_with(
        AIR_BLOCK,
        &[
            (index(0, 5, 1), DIRT_BLOCK),
            (index(0, 5, 2), DIRT_BLOCK),
            (index(0, 5, 3), DIRT_BLOCK),
            (index(0, 6, 2), DIRT_BLOCK),
            (index(0, 6, 3), DIRT_BLOCK),
            (index(0, 5, 4), SAND_BLOCK),
        ],
    );
    let mut positive = ChunkPreMeshOneDirection::new(&blocks);
    let mut negative = positive.clone();
    merge_faces_on_x_axis(&mut positive, &mut negative);
    assert_eq!(
        drawn(&positive),
        vec![(index(0, 5, 3), 0x1013), (index(0, 5, 4), 0x1011), (index(0, 6, 3), 0x1012)]
    );
}

#[test]
fn rows_do_not_merge_across_the_end_of_a_line() {
    // The last block of one line along z and the first of the next.
    let blocks = blocks_with(AIR_BLOCK, &[(index(0, 5, 15), DIRT_BLOCK), (index(0, 6, 0), DIRT_BLOCK)]);
    let mut positive = ChunkPreMeshOneDirection::new(&blocks);
    let mut negative = positive.clone();
    merge_faces_on_x_axis(&mut positive, &mut negative);
    assert_eq!(drawn(&positive).len(), 2);
    // The top of one column and the bottom of the next slab.
    let blocks = blocks_with(AIR_BLOCK, &[(index(0, 255, 3), DIRT_BLOCK), (index(1, 0, 3), DIRT_BLOCK)]);
    let mut positive = ChunkPreMeshOneDirection::new(&blocks);
    let mut negative = positive.clone();
    merge_faces_on_x_axis(&mut positive, &mut negative);
    assert_eq!(drawn(&positive).len(), 2);
    merge_faces_on_z_axis(&mut positive, &mut negative);
    assert_eq!(drawn(&positive).len(), 2);
}

#[test]
fn whole_line_wraps_to_a_field_of_zero() {
    let others: Vec<(usize, u16)> = (0..16).map(|z| (index(2, 50, z), DIRT_BLOCK)).collect();
    let blocks = blocks_with(AIR_BLOCK, &others);
    let mut positive = ChunkPreMeshOneDirection::new(&blocks);
    let mut negative = positive.clone();
    merge_faces_on_x_axis(&mut positive, &mut negative);
    assert_eq!(drawn(&positive), vec![(index(2, 50, 15), 0x1010)]);
    assert_eq!(
        positive.get_pre_mesh(index(2, 50, 15)).get_stretch().get_final_stretch(),
        (1, 1, 16)
    );

    let others: Vec<(usize, u16)> = (0..256).map(|y| (index(2, y, 9), DIRT_BLOCK)).collect();
    let blocks = blocks_with(AIR_BLOCK, &others);
    let mut positive = ChunkPreMeshOneDirection::new(&blocks);
    let mut negative = positive.clone();
    merge_faces_on_z_axis(&mut positive, &mut negative);
    assert_eq!(drawn(&positive), vec![(index(2, 255, 9), 0x1001)]);
    assert_eq!(
        positive.get_pre_mesh(index(2, 255, 9)).get_stretch().get_final_stretch(),
        (1, 256, 1)
    );
}

fn area(pre_mesh: &ChunkPreMeshOneDirection, direction: usize) -> usize {
    pre_mesh
        .as_slice()
        .iter()
        .filter(|cell| cell.will_be_rendered())
        .map(|cell| {
            let (x, y, z) = cell.get_stretch().get_final_stretch();
            let (x, y, z) = (x as usize, y as usize, z as usize);
            match direction {
                0 => y * z,
                1 => x * z,
                _ => x * y,
            }
        })
        .sum()
}

fn count(pre_mesh: &ChunkPreMeshOneDirection) -> usize {
    pre_mesh.as_slice().iter().filter(|cell| cell.will_be_rendered()).count()
}

fn scattered_blocks(seed: u64, kinds: u64) -> Vec<Block> {
    let mut state = seed;
    let mut blocks = Vec::with_capacity(NB_BLOCKS_PER_CHUNK);
    let mut run = 0;
    let mut id = 0;
    for _ in 0..NB_BLOCKS_PER_CHUNK {
        if run == 0 {
            state = state.wrapping_mul(6364136223846793005).wrapping_add(1442695040888963407);
            run = 1 + (state >> 33) % 40;
            id = ((state >> 20) % kinds) as u16;
        }
        run -= 1;
        blocks.push(block(id));
    }
    blocks
}

#[test]
fn merging_keeps_the_area_of_the_faces() {
    for (seed, kinds) in [(1, 7), (2, 3), (3, 2), (4, 7), (5, 5)] {
        let blocks = scattered_blocks(seed, kinds);
        let mut pre_mesh = ChunkPreMesh::new(&blocks);
        pre_mesh.hide_covered_faces(&no_neighbors());
        let before = [
            count(&pre_mesh.positive_x),
            count(&pre_mesh.negative_x),
            count(&pre_mesh.positive_y),
            count(&pre_mesh.negative_y),
            count(&pre_mesh.positive_z),
            count(&pre_mesh.negative_z),
        ];
        pre_mesh.apply_greedy_meshing();
        assert_eq!(area(&pre_mesh.positive_x, 0), before[0]);
        assert_eq!(area(&pre_mesh.negative_x, 0), before[1]);
        assert_eq!(area(&pre_mesh.positive_y, 1), before[2]);
        assert_eq!(area(&pre_mesh.negative_y, 1), before[3]);
        assert_eq!(area(&pre_mesh.positive_z, 2), before[4]);
        assert_eq!(area(&pre_mesh.negative_z, 2), before[5]);
        assert!(count(&pre_mesh.positive_x) <= before[0]);
        assert!(before.iter().all(|faces| *faces > 0));
    }
}

#[test]
fn merging_keeps_the_area_of_a_full_chunk() {
    let blocks = blocks_with(STONE_BLOCK, &[]);
    let mut pre_mesh = ChunkPreMesh::new(&blocks);
    // Without culling every face of every block is drawn.
    pre_mesh.apply_greedy_meshing();
    assert_eq!(area(&pre_mesh.positive_x, 0), NB_BLOCKS_PER_CHUNK);
    assert_eq!(count(&pre_mesh.positive_x), 16);
    assert_eq!(area(&pre_mesh.negative_y, 1), NB_BLOCKS_PER_CHUNK);
    assert_eq!(count(&pre_mesh.negative_y), 256);
    assert_eq!(area(&pre_mesh.positive_z, 2), NB_BLOCKS_PER_CHUNK);
    assert_eq!(count(&pre_mesh.positive_z), 16);
}

#[test]
fn optimise_is_culling_then_merging() {
    let blocks = scattered_blocks(9, 7);
    let mut at_once = ChunkPreMesh::new(&blocks);
    at_once.optimise(&no_neighbors());
    let mut in_steps = ChunkPreMesh::new(&blocks);
    in_steps.hide_covered_faces(&no_neighbors());
    in_steps.apply_greedy_meshing();
    assert_eq!(drawn(&at_once.positive_x), drawn(&in_steps.positive_x));
    assert_eq!(drawn(&at_once.negative_x), drawn(&in_steps.negative_x));
    assert_eq!(drawn(&at_once.positive_y), drawn(&in_steps.positive_y));
    assert_eq!(drawn(&at_once.negative_y), drawn(&in_steps.negative_y));
    assert_eq!(drawn(&at_once.positive_z), drawn(&in_steps.positive_z));
    assert_eq!(drawn(&at_once.negative_z), drawn(&in_steps.negative_z));
}
