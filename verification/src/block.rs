//! A block of terrain packed into sixteen bits.
//!
//! Bit layout, most significant first: `IIII IIII IIIU UOOO`, eleven bits of
//! block id, two unused bits, three bits of orientation.

use vstd::prelude::*;

verus! {

/// The packed value of an air block facing `PositiveX`.
pub const AIR_BLOCK: u16 = 0x0000;

/// Number of distinct block ids that fit the id field.
pub const BLOCK_ID_LIMIT: u16 = 2048;

/// The face of the cube a block is turned towards.
#[derive(Clone, Copy, Debug, PartialEq, Eq, Structural)]
pub enum BlockOrientation {
    PositiveX,
    NegativeX,
    PositiveY,
    NegativeY,
    PositiveZ,
    NegativeZ,
}

impl BlockOrientation {
    /// The three-bit code stored for this orientation.
    pub open spec fn code(self) -> u16 {
        match self {
            BlockOrientation::PositiveX => 0,
            BlockOrientation::NegativeX => 1,
            BlockOrientation::PositiveY => 2,
            BlockOrientation::NegativeY => 3,
            BlockOrientation::PositiveZ => 4,
            BlockOrientation::NegativeZ => 5,
        }
    }

    /// The orientation a code below six stands for.
    pub open spec fn from_code(code: u16) -> BlockOrientation {
        if code == 0 {
            BlockOrientation::PositiveX
        } else if code == 1 {
            BlockOrientation::NegativeX
        } else if code == 2 {
            BlockOrientation::PositiveY
        } else if code == 3 {
            BlockOrientation::NegativeY
        } else if code == 4 {
            BlockOrientation::PositiveZ
        } else {
            BlockOrientation::NegativeZ
        }
    }
}

impl Default for BlockOrientation {
    fn default() -> (orientation: BlockOrientation)
        ensures
            orientation == BlockOrientation::PositiveX,
    {
        BlockOrientation::PositiveX
    }
}

/// A block id and an orientation in one `u16`.
#[derive(Clone, Copy, Debug, PartialEq, Eq, Structural)]
pub struct Block(pub u16);

impl Block {
    /// The id field: the upper eleven bits.
    pub open spec fn spec_get_id(&self) -> u16 {
        self.0 / 32
    }

    /// The orientation field: the lowest three bits.
    pub open spec fn orientation_code(self) -> u16 {
        self.0 % 8
    }

    /// The two bits between the id and the orientation.
    pub open spec fn unused_bits(self) -> u16 {
        (self.0 / 8) % 4
    }

    /// Whether the orientation field holds one of the six codes in use.
    pub open spec fn has_orientation(self) -> bool {
        self.orientation_code() < 6
    }

    /// The orientation the block is turned towards.
    pub open spec fn spec_get_orientation(&self) -> BlockOrientation {
        BlockOrientation::from_code(self.orientation_code())
    }

    /// The block that packs `block_id`, cut to eleven bits, with `orientation`.
    pub open spec fn encode(block_id: u16, orientation: BlockOrientation) -> Block {
        Block(((block_id % 2048) * 32 + orientation.code()) as u16)
    }

    /// Packs an id and an orientation. An id of 2048 or more loses its upper bits.
    pub fn new(block_id: u16, orientation: BlockOrientation) -> (block: Block)
        ensures
            block == Block::encode(block_id, orientation),
            block.spec_get_id() == block_id % 2048,
            block.spec_get_orientation() == orientation,
            block.unused_bits() == 0,
    {
        let mut block = Self::default();
        block.set_orientation(orientation);
        block.set_id(block_id);
        block
    }

    /// The air block.
    pub fn default() -> (block: Block)
        ensures
            block.0 == AIR_BLOCK,
    {
        Block(AIR_BLOCK)
    }

    #[verifier::when_used_as_spec(spec_get_orientation)]
    pub fn get_orientation(&self) -> (orientation: BlockOrientation)
        requires
            self.has_orientation(),
        ensures
            orientation == self.spec_get_orientation(),
            orientation.code() == self.orientation_code(),
    {
        let bits: u16 = self.0;
        let orientation_code: u16 = (bits << 13) >> 13;
        assert(((bits << 13) >> 13) == bits % 8) by (bit_vector);
        if orientation_code == 0 {
            BlockOrientation::PositiveX
        } else if orientation_code == 1 {
            BlockOrientation::NegativeX
        } else if orientation_code == 2 {
            BlockOrientation::PositiveY
        } else if orientation_code == 3 {
            BlockOrientation::NegativeY
        } else if orientation_code == 4 {
            BlockOrientation::PositiveZ
        } else {
            BlockOrientation::NegativeZ
        }
    }

    #[inline]
    #[verifier::when_used_as_spec(spec_get_id)]
    pub fn get_id(&self) -> (id: u16)
        ensures
            id == self.spec_get_id(),
            id < BLOCK_ID_LIMIT,
    {
        let bits: u16 = self.0;
        assert(bits >> 5 == bits / 32 && bits >> 5 < 2048) by (bit_vector);
        bits >> 5
    }

    #[inline]
    pub fn get_as_u16(&self) -> (bits: u16)
        ensures
            bits == self.0,
    {
        self.0
    }

    /// Replaces the orientation field and keeps the other thirteen bits.
    #[inline]
    pub fn set_orientation(&mut self, orientation: BlockOrientation)
        ensures
            final(self).0 == old(self).0 - old(self).0 % 8 + orientation.code(),
            final(self).spec_get_orientation() == orientation,
            final(self).spec_get_id() == old(self).spec_get_id(),
            final(self).unused_bits() == old(self).unused_bits(),
    {
        let bits: u16 = self.0;
        let code: u16 = match orientation {
            BlockOrientation::PositiveX => 0x0,
            BlockOrientation::NegativeX => 0x1,
            BlockOrientation::PositiveY => 0x2,
            BlockOrientation::NegativeY => 0x3,
            BlockOrientation::PositiveZ => 0x4,
            BlockOrientation::NegativeZ => 0x5,
        };
        assert(((bits & 0xFFF8) | code) == bits - bits % 8 + code) by (bit_vector)
            requires
                code < 8,
        ;
        self.0 = (bits & 0xFFF8) | code;
    }

    /// Replaces the id field by `block_id`, cut to eleven bits, and keeps the
    /// lower five bits.
    pub fn set_id(&mut self, block_id: u16)
        ensures
            final(self).0 == old(self).0 % 32 + (block_id % 2048) * 32,
            final(self).spec_get_id() == block_id % 2048,
            final(self).orientation_code() == old(self).orientation_code(),
            final(self).unused_bits() == old(self).unused_bits(),
    {
        let bits: u16 = self.0;
        let id_shifted: u16 = block_id << 5;
        assert(((bits & 0x001F) | (block_id << 5)) == bits % 32 + (block_id % 2048) * 32)
            by (bit_vector);
        self.0 = (bits & 0x001F) | id_shifted;
    }
}

/// Unpacking a packed id and orientation gives both back, for every id that
/// fits eleven bits.
pub proof fn lemma_encode_decode(block_id: u16, orientation: BlockOrientation)
    requires
        block_id < BLOCK_ID_LIMIT,
    ensures
        Block::encode(block_id, orientation).spec_get_id() == block_id,
        Block::encode(block_id, orientation).has_orientation(),
        Block::encode(block_id, orientation).spec_get_orientation() == orientation,
{
}

} // verus!
