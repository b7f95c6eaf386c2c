use bevy::prelude::Color;
use voxel_terrain::chunk_renderer::blocks_resources::blocks_ids::{
    DEBUG_BLOCK, DIRT_BLOCK, GRASS_BLOCK, SAND_BLOCK, STONE_BLOCK, WATER_BLOCK,
};
use voxel_terrain::chunk_renderer::blocks_resources::block_color;
use voxel_terrain::chunk_renderer::pre_mesh_to_bundle_conveter::DEFAULT_COLOR;

#[test]
fn colours_are_the_packed_form_of_their_hue_saturation_and_lightness() {
    let expected = [
        (DEBUG_BLOCK, Color::hsla(305., 1., 0.5, 1.)),
        (DIRT_BLOCK, Color::hsla(42., 0.82, 0.3, 1.)),
        (GRASS_BLOCK, Color::hsla(127., 0.8, 0.39, 1.)),
        (STONE_BLOCK, Color::hsla(195., 0.02, 0.46, 1.)),
        (SAND_BLOCK, Color::hsla(64., 0.63, 0.62, 1.)),
        (WATER_BLOCK, Color::hsla(204., 0.86, 0.48, 0.3)),
    ];
    for (id, color) in expected {
        assert_eq!(block_color(id), Some(color.as_rgba_u32()));
    }
    assert_eq!(DEFAULT_COLOR, Color::FUCHSIA.as_rgba_u32());
}

#[test]
fn packed_colours_unpack_to_the_same_colour() {
    for id in [DEBUG_BLOCK, DIRT_BLOCK, GRASS_BLOCK, STONE_BLOCK, SAND_BLOCK, WATER_BLOCK] {
        let packed = block_color(id).unwrap();
        let [red, green, blue, alpha] = packed.to_le_bytes();
        let color = Color::rgba_u8(red, green, blue, alpha);
        let [r, g, b, a] = color.as_rgba_f32();
        assert!((r * 255.0 - red as f32).abs() < 0.01);
        assert!((g * 255.0 - green as f32).abs() < 0.01);
        assert!((b * 255.0 - blue as f32).abs() < 0.01);
        assert!((a * 255.0 - alpha as f32).abs() < 0.01);
    }
}
