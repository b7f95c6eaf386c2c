use voxel_terrain::block::{Block, BlockOrientation};
use voxel_terrain::chunk::{ChunkData, NB_BLOCKS_PER_CHUNK};
use voxel_terrain::chunk_renderer::blocks_resources::blocks_ids::{
    AIR_BLOCK, DIRT_BLOCK, STONE_BLOCK, WATER_BLOCK,
};
use voxel_terrain::chunk_renderer::covered_faces::{
    face_should_be_rendered, pre_mesh_block_faces_on_negative_x,
    pre_mesh_block_faces_on_negative_y, pre_mesh_block_faces_on_negative_z,
    pre_mesh_block_faces_on_positive_x, pre_mesh_block_faces_on_positive_y,
    pre_mesh_block_faces_on_positive_z,
};
use voxel_terrain::chunk_renderer::pre_mesh_creator::{
    BlockPreMesh, ChunkPreMesh, ChunkPreMeshOneDirection, NeighborChunks, Stretch,
};

fn block(id: u16) -> Block {
    Block::new(id, BlockOrientation::PositiveX)
}

fn index(x: usize, y: usize, z: usize) -> usize {
    x * 4096 + y * 16 + z
}

fn blocks_with(fill: u16, others: &[(usize, u16)]) -> Vec<Block> {
    let mut blocks = vec![block(fill); NB_BLOCKS_PER_CHUNK];
    for (place, id) in others {
        blocks[*place] = block(*id);
    }
    blocks
}

fn data_of(blocks: &[Block]) -> ChunkData {
    let mut data = ChunkData::default();
    data.as_mut_slice().copy_from_slice(blocks);
    data
}

fn drawn(pre_mesh: &ChunkPreMeshOneDirection) -> Vec<usize> {
    (0..NB_BLOCKS_PER_CHUNK).filter(|i| pre_mesh.get_pre_mesh(*i).will_be_rendered()).collect()
}

fn culled_in_six_directions(blocks: &[Block]) -> [Vec<usize>; 6] {
    let mut pre_mesh = ChunkPreMesh::new(blocks);
    pre_mesh_block_faces_on_positive_x(&mut pre_mesh.positive_x, &None);
    pre_mesh_block_faces_on_negative_x(&mut pre_mesh.negative_x, &None);
    pre_mesh_block_faces_on_positive_y(&mut pre_mesh.positive_y);
    pre_mesh_block_faces_on_negative_y(&mut pre_mesh.negative_y);
    pre_mesh_block_faces_on_positive_z(&mut pre_mesh.positive_z, &None);
    pre_mesh_block_faces_on_negative_z(&mut pre_mesh.negative_z, &None);
    [
        drawn(&pre_mesh.positive_x),
        drawn(&pre_mesh.negative_x),
        drawn(&pre_mesh.positive_y),
        drawn(&pre_mesh.negative_y),
        drawn(&pre_mesh.positive_z),
        drawn(&pre_mesh.negative_z),
    ]
}

#[test]
fn face_is_drawn_against_another_transparent_block_only() {
    assert!(face_should_be_rendered(&block(STONE_BLOCK), &block(AIR_BLOCK)));
    assert!(face_should_be_rendered(&block(STONE_BLOCK), &block(WATER_BLOCK)));
    assert!(face_should_be_rendered(&block(WATER_BLOCK), &block(AIR_BLOCK)));
    assert!(face_should_be_rendered(&block(AIR_BLOCK), &block(WATER_BLOCK)));
    assert!(!face_should_be_rendered(&block(AIR_BLOCK), &block(STONE_BLOCK)));
    assert!(!face_should_be_rendered(&block(DIRT_BLOCK), &block(STONE_BLOCK)));
    assert!(!face_should_be_rendered(&block(STONE_BLOCK), &block(STONE_BLOCK)));
}

#[test]
fn face_between_equal_transparent_blocks_is_not_drawn() {
    assert!(!face_should_be_rendered(&block(AIR_BLOCK), &block(AIR_BLOCK)));
    assert!(!face_should_be_rendered(&block(WATER_BLOCK), &block(WATER_BLOCK)));
    // The same kind of block turned another way is another block.
    let turned = Block::new(WATER_BLOCK, BlockOrientation::NegativeY);
    assert!(face_should_be_rendered(&block(WATER_BLOCK), &turned));
}

#[test]
fn water_beside_water_shows_no_face_in_any_direction() {
    // A cube of 3 x 3 x 3 blocks of water inside a chunk of stone: the
    // block in its middle has water on all six sides.
    let mut others = Vec::new();
    for x in 4..7 {
        for y in 100..103 {
            for z in 8..11 {
                others.push((index(x, y, z), WATER_BLOCK));
            }
        }
    }
    let blocks = blocks_with(STONE_BLOCK, &others);
    let middle = index(5, 101, 9);
    for direction in culled_in_six_directions(&blocks) {
        assert!(!direction.contains(&middle));
    }
}

#[test]
fn lone_block_in_air_shows_all_six_faces() {
    let place = index(5, 101, 9);
    let blocks = blocks_with(AIR_BLOCK, &[(place, DIRT_BLOCK)]);
    for direction in culled_in_six_directions(&blocks) {
        assert_eq!(direction, vec![place]);
    }
}

#[test]
fn lone_hole_in_stone_shows_the_six_faces_around_it() {
    let place = index(5, 101, 9);
    let blocks = blocks_with(STONE_BLOCK, &[(place, AIR_BLOCK)]);
    let [positive_x, negative_x, positive_y, negative_y, positive_z, negative_z] =
        culled_in_six_directions(&blocks);
    // Without neighbours the faces on the edge of the chunk stay; inside,
    // only the face that looks into the hole does.
    let inside = |cells: &Vec<usize>| -> Vec<usize> {
        cells
            .iter()
            .copied()
            .filter(|i| {
                let (x, y, z) = (i / 4096, (i % 4096) / 16, i % 16);
                x > 0 && x < 15 && y > 0 && y < 255 && z > 0 && z < 15
            })
            .collect()
    };
    assert_eq!(inside(&positive_x), vec![index(4, 101, 9)]);
    assert_eq!(inside(&negative_x), vec![index(6, 101, 9)]);
    assert_eq!(inside(&positive_y), vec![index(5, 100, 9)]);
    assert_eq!(inside(&negative_y), vec![index(5, 102, 9)]);
    assert_eq!(inside(&positive_z), vec![index(5, 101, 8)]);
    assert_eq!(inside(&negative_z), vec![index(5, 101, 10)]);
}

#[test]
fn edge_of_the_chunk_is_drawn_where_no_neighbor_is_loaded() {
    let blocks = blocks_with(STONE_BLOCK, &[]);
    let [positive_x, negative_x, positive_y, negative_y, positive_z, negative_z] =
        culled_in_six_directions(&blocks);
    assert_eq!(positive_x, (61440..65536).collect::<Vec<usize>>());
    assert_eq!(negative_x, (0..4096).collect::<Vec<usize>>());
    assert_eq!(positive_y.len(), 256);
    assert!(positive_y.iter().all(|i| (i % 4096) / 16 == 255));
    assert_eq!(negative_y.len(), 256);
    assert!(negative_y.iter().all(|i| (i % 4096) / 16 == 0));
    assert_eq!(positive_z.len(), 4096);
    assert!(positive_z.iter().all(|i| i % 16 == 15));
    assert_eq!(negative_z.len(), 4096);
    assert!(negative_z.iter().all(|i| i % 16 == 0));
}

#[test]
fn edge_of_the_chunk_is_culled_against_a_loaded_neighbor() {
    let blocks = blocks_with(STONE_BLOCK, &[]);
    // The neighbour is stone but for one block of air on each of its sides.
    let beside = blocks_with(
        STONE_BLOCK,
        &[
            (index(0, 7, 3), AIR_BLOCK),
            (index(15, 8, 4), AIR_BLOCK),
            (index(9, 9, 0), AIR_BLOCK),
            (index(10, 10, 15), AIR_BLOCK),
        ],
    );
    let beside = Some(data_of(&beside));
    let mut pre_mesh = ChunkPreMesh::new(&blocks);
    pre_mesh_block_faces_on_positive_x(&mut pre_mesh.positive_x, &beside);
    pre_mesh_block_faces_on_negative_x(&mut pre_mesh.negative_x, &beside);
    pre_mesh_block_faces_on_positive_z(&mut pre_mesh.positive_z, &beside);
    pre_mesh_block_faces_on_negative_z(&mut pre_mesh.negative_z, &beside);
    assert_eq!(drawn(&pre_mesh.positive_x), vec![index(15, 7, 3)]);
    assert_eq!(drawn(&pre_mesh.negative_x), vec![index(0, 8, 4)]);
    assert_eq!(drawn(&pre_mesh.positive_z), vec![index(9, 9, 15)]);
    assert_eq!(drawn(&pre_mesh.negative_z), vec![index(10, 10, 0)]);
}

#[test]
fn culling_keeps_the_block_and_clears_the_stretch() {
    let blocks = blocks_with(STONE_BLOCK, &[]);
    let mut pre_mesh = ChunkPreMeshOneDirection::new(&blocks);
    assert_eq!(pre_mesh.get_pre_mesh(9).get_stretch().get_as_u16(), 0x1011);
    pre_mesh_block_faces_on_positive_y(&mut pre_mesh);
    let cell = pre_mesh.get_pre_mesh(9);
    assert_eq!(cell.get_block(), block(STONE_BLOCK));
    assert_eq!(cell.get_stretch().get_as_u16(), 0);
    assert!(!cell.will_be_rendered());
    let top = pre_mesh.get_pre_mesh(index(0, 255, 9));
    assert_eq!(top.get_stretch().get_as_u16(), 0x1011);
}

#[test]
fn air_starts_without_a_face() {
    let blocks = blocks_with(AIR_BLOCK, &[(5, WATER_BLOCK)]);
    let pre_mesh = ChunkPreMeshOneDirection::new(&blocks);
    assert_eq!(drawn(&pre_mesh), vec![5]);
    assert_eq!(pre_mesh.as_slice().len(), NB_BLOCKS_PER_CHUNK);
    assert_eq!(pre_mesh.get_pre_mesh(4).get_stretch().get_as_u16(), 0);
    assert_eq!(pre_mesh.get_pre_mesh(5).get_stretch().get_as_u16(), 0x1011);
    assert_eq!(pre_mesh.get_pre_mesh(5).get_block(), block(WATER_BLOCK));
    let copy = pre_mesh.clone();
    assert_eq!(drawn(&copy), vec![5]);
}

#[test]
fn cells_of_an_array_can_be_set_and_hidden() {
    let blocks = blocks_with(STONE_BLOCK, &[]);
    let mut pre_mesh = ChunkPreMeshOneDirection::new(&blocks);
    let cell = BlockPreMesh::new(block(DIRT_BLOCK), Stretch::from_xyz(2, 3, 4));
    pre_mesh.set_pre_mesh(77, cell);
    assert_eq!(pre_mesh.get_pre_mesh(77).get_block(), block(DIRT_BLOCK));
    assert_eq!(pre_mesh.get_pre_mesh(77).get_stretch().get_as_u16(), 0x2034);
    pre_mesh.should_not_be_rendered(77);
    assert_eq!(pre_mesh.get_pre_mesh(77).get_block(), block(DIRT_BLOCK));
    assert_eq!(pre_mesh.get_pre_mesh(77).get_stretch().get_as_u16(), 0);
    pre_mesh.as_mut_slice()[78] = cell;
    assert_eq!(pre_mesh.get_pre_mesh(78).get_stretch().get_as_u16(), 0x2034);
    assert_eq!(pre_mesh.get_pre_mesh(76).get_stretch().get_as_u16(), 0x1011);
}

#[test]
fn neighbors_can_be_held_or_missing() {
    let neighbors = NeighborChunks {
        positive_x: Some(ChunkData::default()),
        negative_x: None,
        positive_z: None,
        negative_z: Some(ChunkData::default()),
    };
    assert!(neighbors.positive_x.is_some() && neighbors.negative_z.is_some());
    assert!(neighbors.negative_x.is_none() && neighbors.positive_z.is_none());
}
