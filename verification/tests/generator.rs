use voxel_terrain::block::{Block, BlockOrientation};
use voxel_terrain::chunk_renderer::blocks_resources::blocks_ids::{
    AIR_BLOCK, GRASS_BLOCK, SAND_BLOCK, WATER_BLOCK,
};
use voxel_terrain::coordinates::biome_coordinates::BiomeCoordinates;
use voxel_terrain::coordinates::chunk_coordinates::ChunkCoordinates;
use voxel_terrain::world_generator::biomes::biome::{
    Biome, BIOME_SIZE_IN_BLOCKS, BIOME_SIZE_IN_CHUNKS, OCEAN_LEVEL,
};
use voxel_terrain::world_generator::biomes::desert_biome::DesertBiome;
use voxel_terrain::world_generator::biomes::grass_hills_biome::GrassHillsBiome;
use voxel_terrain::world_generator::generator::{biome_of_hash, get_biome_at};
use std::collections::hash_map::DefaultHasher;
use std::hash::{Hash, Hasher};

fn derived_hash(coords: &BiomeCoordinates) -> u64 {
    let mut hasher = DefaultHasher::new();
    coords.hash(&mut hasher);
    hasher.finish()
}

fn block(id: u16) -> Block {
    Block::new(id, BlockOrientation::PositiveX)
}

#[test]
fn biome_is_2048_blocks_wide() {
    assert_eq!(BIOME_SIZE_IN_CHUNKS, 128);
    assert_eq!(BIOME_SIZE_IN_BLOCKS, 16 * 128);
    assert_eq!(OCEAN_LEVEL, 48);
}

#[test]
fn even_hash_is_desert_and_odd_hash_is_grass_hills() {
    assert!(matches!(biome_of_hash(0), Biome::Desert(_)));
    assert!(matches!(biome_of_hash(1), Biome::GrassHills(_)));
    assert!(matches!(biome_of_hash(u64::MAX), Biome::GrassHills(_)));
    assert!(matches!(biome_of_hash(u64::MAX - 1), Biome::Desert(_)));
}

#[test]
fn chunks_of_one_biome_get_the_same_kind() {
    let here = BiomeCoordinates::from_chunk_coords(&ChunkCoordinates::new(16, 0, 32));
    let there = BiomeCoordinates::from_chunk_coords(&ChunkCoordinates::new(2032, 0, 0));
    let first = matches!(get_biome_at(&here), Biome::Desert(_));
    let second = matches!(get_biome_at(&there), Biome::Desert(_));
    assert_eq!(first, second);
    let again = matches!(get_biome_at(&here), Biome::Desert(_));
    assert_eq!(first, again);
}

#[test]
fn biome_is_chosen_by_the_hash_of_its_origin() {
    let mut deserts = 0;
    let mut hills = 0;
    for step in -40..40 {
        let chunk = ChunkCoordinates::new(step * 2048, 0, step * 7 * 2048 + 16);
        let coords = BiomeCoordinates::from_chunk_coords(&chunk);
        let expected = biome_of_hash(derived_hash(&coords));
        let chosen = get_biome_at(&coords);
        assert_eq!(matches!(chosen, Biome::Desert(_)), matches!(expected, Biome::Desert(_)));
        if matches!(chosen, Biome::Desert(_)) {
            deserts += 1;
        } else {
            hills += 1;
        }
    }
    assert!(deserts > 0 && hills > 0);
}

#[test]
fn biome_origin_gives_its_coordinates() {
    let coords = BiomeCoordinates::from_chunk_coords(&ChunkCoordinates::new(2048 + 32, 0, -16));
    assert_eq!(coords.get_x(), 0x8000_0000 + 2048);
    assert_eq!(coords.get_z(), 0x8000_0000 - 2048);
    let coords = BiomeCoordinates::from_chunk_coords(&ChunkCoordinates::new(i32::MIN, 0, i32::MAX));
    assert_eq!((coords.get_x(), coords.get_z()), (0, 0xFFFF_F800));
}

#[test]
fn desert_is_sand_below_water_or_air() {
    assert_eq!(DesertBiome::block_at(10, false), block(SAND_BLOCK));
    assert_eq!(DesertBiome::block_at(200, false), block(SAND_BLOCK));
    assert_eq!(DesertBiome::block_at(48, true), block(WATER_BLOCK));
    assert_eq!(DesertBiome::block_at(0, true), block(WATER_BLOCK));
    assert_eq!(DesertBiome::block_at(49, true), block(AIR_BLOCK));
    assert_eq!(Biome::Desert(DesertBiome).block_at(49, false), block(SAND_BLOCK));
}

#[test]
fn grass_hills_are_grass_above_the_shore() {
    assert_eq!(GrassHillsBiome::block_at(50, false), block(GRASS_BLOCK));
    assert_eq!(GrassHillsBiome::block_at(49, false), block(SAND_BLOCK));
    assert_eq!(GrassHillsBiome::block_at(0, false), block(SAND_BLOCK));
    assert_eq!(GrassHillsBiome::block_at(48, true), block(WATER_BLOCK));
    assert_eq!(GrassHillsBiome::block_at(49, true), block(AIR_BLOCK));
    assert_eq!(Biome::GrassHills(GrassHillsBiome).block_at(255, false), block(GRASS_BLOCK));
    assert_eq!(Biome::GrassHills(GrassHillsBiome).block_at(255, true), block(AIR_BLOCK));
}
