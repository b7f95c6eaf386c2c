use voxel_terrain::chunk_renderer::blocks_resources::blocks_ids::{
    AIR_BLOCK, DEBUG_BLOCK, DIRT_BLOCK, GRASS_BLOCK, SAND_BLOCK, STONE_BLOCK, WATER_BLOCK,
};
use voxel_terrain::chunk_renderer::blocks_resources::{
    block_color, block_infos, block_is_transparent, get_block_id, InvalidBlockId, NB_BLOCK_KINDS,
};
use voxel_terrain::chunk_renderer::pre_mesh_to_bundle_conveter::DEFAULT_COLOR;
use voxel_terrain::chunk_renderer::resource_extractor;

#[test]
fn ids_follow_the_order_of_the_catalogue() {
    assert_eq!(
        [AIR_BLOCK, DEBUG_BLOCK, DIRT_BLOCK, GRASS_BLOCK, STONE_BLOCK, SAND_BLOCK, WATER_BLOCK],
        [0, 1, 2, 3, 4, 5, 6]
    );
    assert_eq!(NB_BLOCK_KINDS, 7);
}

#[test]
fn only_air_and_water_are_transparent() {
    for id in 0..NB_BLOCK_KINDS {
        let expected = id == AIR_BLOCK || id == WATER_BLOCK;
        assert_eq!(block_is_transparent(id), expected);
        assert_eq!(resource_extractor::block_is_transparent(id), expected);
        assert_eq!(block_infos(id).unwrap().is_transparent, expected);
    }
}

#[test]
fn entries_hold_id_name_and_colour() {
    let names = [
        "air_block", "debug_block", "dirt_block", "grass_block", "stone_block", "sand_block",
        "water_block",
    ];
    for id in 0..NB_BLOCK_KINDS {
        let infos = block_infos(id).unwrap();
        assert_eq!(infos.id, id);
        assert_eq!(infos.name, names[id as usize]);
        assert_eq!(infos.color, block_color(id));
        assert_eq!(infos.color, resource_extractor::block_color(id));
        assert_eq!(get_block_id(names[id as usize]), Some(id));
    }
    assert_eq!(block_color(AIR_BLOCK), None);
    assert_eq!(block_color(STONE_BLOCK), Some(0xFF77_7672));
    assert_eq!(block_color(WATER_BLOCK), Some(0x4CE3_8F11));
}

#[test]
fn unknown_id_is_an_error() {
    assert_eq!(block_infos(7).err(), Some(InvalidBlockId(7)));
    assert_eq!(block_infos(2047).err(), Some(InvalidBlockId(2047)));
    assert_eq!(block_infos(u16::MAX).err(), Some(InvalidBlockId(u16::MAX)));
    assert!(block_infos(6).is_ok());
}

#[test]
fn unknown_name_has_no_id() {
    assert_eq!(get_block_id("lava_block"), None);
    assert_eq!(get_block_id(""), None);
    assert_eq!(get_block_id("AIR_BLOCK"), None);
    assert_eq!(get_block_id("air_block "), None);
    assert_eq!(get_block_id("air_bloc"), None);
    assert_eq!(get_block_id("wäter_block"), None);
}

#[test]
fn default_colour_is_opaque_fuchsia() {
    assert_eq!(DEFAULT_COLOR.to_le_bytes(), [255, 0, 255, 255]);
}
