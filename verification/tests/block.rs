use voxel_terrain::block::{Block, BlockOrientation, AIR_BLOCK, BLOCK_ID_LIMIT};

fn orientations() -> [BlockOrientation; 6] {
    [
        BlockOrientation::PositiveX,
        BlockOrientation::NegativeX,
        BlockOrientation::PositiveY,
        BlockOrientation::NegativeY,
        BlockOrientation::PositiveZ,
        BlockOrientation::NegativeZ,
    ]
}

#[test]
fn every_id_and_orientation_comes_back() {
    for id in 0..BLOCK_ID_LIMIT {
        for orientation in orientations() {
            let block = Block::new(id, orientation);
            assert_eq!(block.get_id(), id);
            assert_eq!(block.get_orientation(), orientation);
        }
    }
}

#[test]
fn block_bits_are_id_times_32_plus_orientation() {
    assert_eq!(Block::new(0, BlockOrientation::PositiveX).get_as_u16(), 0);
    assert_eq!(Block::new(3, BlockOrientation::NegativeY).get_as_u16(), 99);
    assert_eq!(Block::new(2047, BlockOrientation::NegativeZ).get_as_u16(), 0xFFE5);
    assert_eq!(Block::new(1, BlockOrientation::PositiveZ).0, 36);
}

#[test]
fn default_block_is_air() {
    assert_eq!(Block::default().0, AIR_BLOCK);
    assert_eq!(Block::default().get_id(), 0);
    assert_eq!(Block::default().get_orientation(), BlockOrientation::PositiveX);
    assert_eq!(BlockOrientation::default(), BlockOrientation::PositiveX);
}

#[test]
fn id_beyond_eleven_bits_loses_its_upper_bits() {
    let block = Block::new(2048 + 5, BlockOrientation::NegativeX);
    assert_eq!(block.get_id(), 5);
    assert_eq!(block.get_orientation(), BlockOrientation::NegativeX);
    assert_eq!(Block::new(0xFFFF, BlockOrientation::PositiveX).get_id(), 2047);
}

#[test]
fn setters_keep_the_other_bits() {
    let mut block = Block(0b0000_0000_0111_1101);
    block.set_id(9);
    assert_eq!(block.0, 0b0000_0001_0011_1101);
    block.set_orientation(BlockOrientation::PositiveY);
    assert_eq!(block.0, 0b0000_0001_0011_1010);
    assert_eq!(block.get_id(), 9);
    assert_eq!(block.get_orientation(), BlockOrientation::PositiveY);
}
