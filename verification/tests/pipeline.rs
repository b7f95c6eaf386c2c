use std::collections::HashMap;

use voxel_terrain::block::{Block, BlockOrientation};
use voxel_terrain::chunk::{Chunk, ChunkData, NB_BLOCKS_PER_CHUNK};
use voxel_terrain::chunk_renderer::blocks_resources::blocks_ids::{
    AIR_BLOCK, SAND_BLOCK, STONE_BLOCK, WATER_BLOCK,
};
use voxel_terrain::chunk_renderer::blocks_resources::{block_color, InvalidBlockId};
use voxel_terrain::chunk_renderer::pre_mesh_creator::{ChunkPreMesh, NeighborChunks};
use voxel_terrain::chunk_renderer::pre_mesh_to_bundle_conveter::{
    get_faces_mesh, FacesMeshWithColor,
};
use voxel_terrain::chunk_renderer::renderer::generate_chunk_mesh;

fn filled_chunk(block_id: u16) -> Chunk {
    let mut chunk = Chunk::new(0, 0, 0);
    for block in chunk.as_mut_slice().iter_mut() {
        *block = Block::new(block_id, BlockOrientation::PositiveX);
    }
    chunk
}

fn filled_data(block_id: u16) -> ChunkData {
    let mut data = ChunkData::default();
    for block in data.as_mut_slice().iter_mut() {
        *block = Block::new(block_id, BlockOrientation::PositiveX);
    }
    data
}

fn no_neighbors() -> NeighborChunks {
    NeighborChunks { positive_x: None, negative_x: None, positive_z: None, negative_z: None }
}

fn quad_count(meshes: &HashMap<u32, FacesMeshWithColor>) -> usize {
    meshes.values().map(|mesh| mesh.faces_mesh.indices.len() / 6).sum()
}

#[test]
fn lone_opaque_chunk_gives_six_full_faces() {
    let chunk = filled_chunk(STONE_BLOCK);
    let meshes = generate_chunk_mesh(&chunk, &no_neighbors()).unwrap();
    assert_eq!(meshes.len(), 1);
    let stone = block_color(STONE_BLOCK).unwrap();
    let mesh = &meshes[&stone];
    assert_eq!(mesh.color, stone);
    assert_eq!(mesh.faces_mesh.vertices.len(), 24);
    assert_eq!(mesh.faces_mesh.vertices_normals.len(), 24);
    assert_eq!(mesh.faces_mesh.vertices_uv.len(), 24);
    assert_eq!(mesh.faces_mesh.indices.len(), 36);
    assert_eq!(quad_count(&meshes), 6);

    let expected: Vec<[i32; 3]> = vec![
        // +x
        [16, 256, 16], [16, 0, 16], [16, 0, 0], [16, 256, 0],
        // -x
        [0, 256, 16], [0, 0, 16], [0, 0, 0], [0, 256, 0],
        // +y
        [16, 256, 16], [0, 256, 16], [0, 256, 0], [16, 256, 0],
        // -y
        [16, 0, 16], [0, 0, 16], [0, 0, 0], [16, 0, 0],
        // +z
        [16, 256, 16], [16, 0, 16], [0, 0, 16], [0, 256, 16],
        // -z
        [16, 256, 0], [16, 0, 0], [0, 0, 0], [0, 256, 0],
    ];
    assert_eq!(mesh.faces_mesh.vertices, expected);

    let normals: Vec<[i32; 3]> =
        vec![[1, 0, 0], [-1, 0, 0], [0, 1, 0], [0, -1, 0], [0, 0, 1], [0, 0, -1]];
    for (face, normal) in normals.iter().enumerate() {
        for corner in 0..4 {
            assert_eq!(mesh.faces_mesh.vertices_normals[face * 4 + corner], *normal);
            assert_eq!(mesh.faces_mesh.vertices_uv[face * 4 + corner], [1, 1]);
        }
    }
    let indices: Vec<u32> = vec![
        0, 1, 2, 0, 2, 3, 4, 6, 5, 4, 7, 6, 8, 10, 9, 8, 11, 10, 12, 13, 14, 12, 14, 15, 16, 18,
        17, 16, 19, 18, 20, 21, 22, 20, 22, 23,
    ];
    assert_eq!(mesh.faces_mesh.indices, indices);
}

#[test]
fn lone_opaque_chunk_wraps_the_height_to_the_whole_chunk() {
    let chunk = filled_chunk(STONE_BLOCK);
    let mut pre_mesh = ChunkPreMesh::new(chunk.as_slice());
    pre_mesh.optimise(&no_neighbors());
    let last = NB_BLOCKS_PER_CHUNK - 1;
    // 256 rows do not fit the eight bits of the y field: it wraps to zero,
    // which reads as the whole height.
    let stretch = pre_mesh.positive_x.get_pre_mesh(last).get_stretch();
    assert_eq!(stretch.get_as_u16(), 0x1000);
    assert_eq!(stretch.get_final_stretch(), (1, 256, 16));
    let stretch = pre_mesh.positive_y.get_pre_mesh(last).get_stretch();
    assert_eq!(stretch.get_as_u16(), 0x0010);
    assert_eq!(stretch.get_final_stretch(), (16, 1, 16));
    let stretch = pre_mesh.positive_z.get_pre_mesh(last).get_stretch();
    assert_eq!(stretch.get_as_u16(), 0x0001);
    assert_eq!(stretch.get_final_stretch(), (16, 256, 1));
    let drawn = |cells: &[voxel_terrain::chunk_renderer::pre_mesh_creator::BlockPreMesh]| {
        cells.iter().filter(|cell| cell.will_be_rendered()).count()
    };
    assert_eq!(drawn(pre_mesh.positive_x.as_slice()), 1);
    assert_eq!(drawn(pre_mesh.negative_x.as_slice()), 1);
    assert_eq!(drawn(pre_mesh.positive_y.as_slice()), 1);
    assert_eq!(drawn(pre_mesh.negative_y.as_slice()), 1);
    assert_eq!(drawn(pre_mesh.positive_z.as_slice()), 1);
    assert_eq!(drawn(pre_mesh.negative_z.as_slice()), 1);
}

#[test]
fn opaque_chunk_among_equal_neighbors_shows_no_side() {
    let chunk = filled_chunk(STONE_BLOCK);
    let neighbors = NeighborChunks {
        positive_x: Some(filled_data(STONE_BLOCK)),
        negative_x: Some(filled_data(STONE_BLOCK)),
        positive_z: Some(filled_data(STONE_BLOCK)),
        negative_z: Some(filled_data(STONE_BLOCK)),
    };
    let mut pre_mesh = ChunkPreMesh::new(chunk.as_slice());
    pre_mesh.optimise(&neighbors);
    let drawn = |cells: &[voxel_terrain::chunk_renderer::pre_mesh_creator::BlockPreMesh]| {
        cells.iter().filter(|cell| cell.will_be_rendered()).count()
    };
    assert_eq!(drawn(pre_mesh.positive_x.as_slice()), 0);
    assert_eq!(drawn(pre_mesh.negative_x.as_slice()), 0);
    assert_eq!(drawn(pre_mesh.positive_z.as_slice()), 0);
    assert_eq!(drawn(pre_mesh.negative_z.as_slice()), 0);
    // There is no chunk above or below: the top and the bottom stay.
    assert_eq!(drawn(pre_mesh.positive_y.as_slice()), 1);
    assert_eq!(drawn(pre_mesh.negative_y.as_slice()), 1);

    let meshes = get_faces_mesh(&pre_mesh);
    assert_eq!(quad_count(&meshes), 2);
    let stone = block_color(STONE_BLOCK).unwrap();
    let expected: Vec<[i32; 3]> = vec![
        [16, 256, 16], [0, 256, 16], [0, 256, 0], [16, 256, 0],
        [16, 0, 16], [0, 0, 16], [0, 0, 0], [16, 0, 0],
    ];
    assert_eq!(meshes[&stone].faces_mesh.vertices, expected);
    assert_eq!(meshes[&stone].faces_mesh.indices, vec![0, 2, 1, 0, 3, 2, 4, 5, 6, 4, 6, 7]);
}

#[test]
fn chunk_of_air_gives_no_mesh() {
    let chunk = filled_chunk(AIR_BLOCK);
    let meshes = generate_chunk_mesh(&chunk, &no_neighbors()).unwrap();
    assert!(meshes.is_empty());
}

#[test]
fn unknown_block_is_reported() {
    let mut chunk = filled_chunk(SAND_BLOCK);
    chunk.as_mut_slice()[70] = Block::new(9, BlockOrientation::PositiveX);
    chunk.as_mut_slice()[700] = Block::new(12, BlockOrientation::PositiveX);
    let result = generate_chunk_mesh(&chunk, &no_neighbors());
    assert_eq!(result.err(), Some(InvalidBlockId(9)));

    let chunk = filled_chunk(SAND_BLOCK);
    let mut beside = filled_data(WATER_BLOCK);
    beside.as_mut_slice()[5] = Block::new(2047, BlockOrientation::NegativeZ);
    let neighbors = NeighborChunks {
        positive_x: None,
        negative_x: None,
        positive_z: Some(beside),
        negative_z: None,
    };
    let result = generate_chunk_mesh(&chunk, &neighbors);
    assert_eq!(result.err(), Some(InvalidBlockId(2047)));
}
