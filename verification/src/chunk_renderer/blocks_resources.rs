//! The block catalogue: for each kind of block its name, whether light
//! passes through it, and the colour it is drawn with.
//!
//! A colour is a packed RGBA value, red in the lowest byte and alpha in the
//! highest.

use vstd::prelude::*;
use vstd::utf8::encode_utf8_decode_utf8;
use vstd::string::StringSliceAdditionalSpecFns;

pub mod blocks_ids;

verus! {

/// Number of kinds of block in the catalogue. Their ids are `0..NB_BLOCK_KINDS`.
pub const NB_BLOCK_KINDS: u16 = 7;

/// What the catalogue holds for one kind of block.
#[derive(Clone, Copy, Debug)]
pub struct BlockInfos {
    pub id: u16,
    pub name: &'static str,
    pub is_transparent: bool,
    pub color: Option<u32>,
}

/// The error of looking up an id that the catalogue does not hold.
#[derive(Clone, Copy, Debug, PartialEq, Eq, Structural)]
pub struct InvalidBlockId(pub u16);

/// Whether the catalogue holds a block of this id.
pub open spec fn is_known_block(block_id: u16) -> bool {
    block_id < NB_BLOCK_KINDS
}

/// The name of a kind of block.
pub open spec fn spec_block_name(block_id: u16) -> Seq<char> {
    if block_id == 0 {
        "air_block"@
    } else if block_id == 1 {
        "debug_block"@
    } else if block_id == 2 {
        "dirt_block"@
    } else if block_id == 3 {
        "grass_block"@
    } else if block_id == 4 {
        "stone_block"@
    } else if block_id == 5 {
        "sand_block"@
    } else {
        "water_block"@
    }
}

/// Whether light passes through a kind of block: through air and water only.
pub open spec fn spec_block_is_transparent(block_id: u16) -> bool {
    block_id == 0 || block_id == 6
}

/// The colour of a kind of block. Air has none.
pub open spec fn spec_block_color(block_id: u16) -> Option<u32> {
    if block_id == 0 {
        None
    } else if block_id == 1 {
        Some(0xFFE9_00FFu32)
    } else if block_id == 2 {
        Some(0xFF0D_658Bu32)
    } else if block_id == 3 {
        Some(0xFF26_B313u32)
    } else if block_id == 4 {
        Some(0xFF77_7672u32)
    } else if block_id == 5 {
        Some(0xFF61_DBD3u32)
    } else {
        Some(0x4CE3_8F11u32)
    }
}

/// Whether `infos` is the catalogue's entry for `block_id`.
pub open spec fn is_entry_of(infos: BlockInfos, block_id: u16) -> bool {
    &&& infos.id == block_id
    &&& infos.name@ == spec_block_name(block_id)
    &&& infos.is_transparent == spec_block_is_transparent(block_id)
    &&& infos.color == spec_block_color(block_id)
}

/// The catalogue's table.
fn table_entry(block_id: u16) -> (entry: BlockInfos)
    requires
        is_known_block(block_id),
    ensures
        is_entry_of(entry, block_id),
{
    if block_id == blocks_ids::AIR_BLOCK {
        BlockInfos { id: block_id, name: "air_block", is_transparent: true, color: None }
    } else if block_id == blocks_ids::DEBUG_BLOCK {
        BlockInfos {
            id: block_id,
            name: "debug_block",
            is_transparent: false,
            color: Some(0xFFE9_00FF),
        }
    } else if block_id == blocks_ids::DIRT_BLOCK {
        BlockInfos {
            id: block_id,
            name: "dirt_block",
            is_transparent: false,
            color: Some(0xFF0D_658B),
        }
    } else if block_id == blocks_ids::GRASS_BLOCK {
        BlockInfos {
            id: block_id,
            name: "grass_block",
            is_transparent: false,
            color: Some(0xFF26_B313),
        }
    } else if block_id == blocks_ids::STONE_BLOCK {
        BlockInfos {
            id: block_id,
            name: "stone_block",
            is_transparent: false,
            color: Some(0xFF77_7672),
        }
    } else if block_id == blocks_ids::SAND_BLOCK {
        BlockInfos {
            id: block_id,
            name: "sand_block",
            is_transparent: false,
            color: Some(0xFF61_DBD3),
        }
    } else {
        BlockInfos {
            id: block_id,
            name: "water_block",
            is_transparent: true,
            color: Some(0x4CE3_8F11),
        }
    }
}

/// The catalogue's entry for `block_id`, or `InvalidBlockId` where it holds
/// none.
pub fn block_infos(block_id: u16) -> (entry: Result<BlockInfos, InvalidBlockId>)
    ensures
        is_known_block(block_id) ==> entry is Ok && is_entry_of(entry->Ok_0, block_id),
        !is_known_block(block_id) ==> entry == Err::<BlockInfos, InvalidBlockId>(
            InvalidBlockId(block_id),
        ),
{
    if block_id < NB_BLOCK_KINDS {
        Ok(table_entry(block_id))
    } else {
        Err(InvalidBlockId(block_id))
    }
}

/// Whether light passes through the kind of block `block_id`.
pub fn block_is_transparent(block_id: u16) -> (transparent: bool)
    requires
        is_known_block(block_id),
    ensures
        transparent == spec_block_is_transparent(block_id),
{
    table_entry(block_id).is_transparent
}

/// The colour of the kind of block `block_id`.
pub fn block_color(block_id: u16) -> (color: Option<u32>)
    requires
        is_known_block(block_id),
    ensures
        color == spec_block_color(block_id),
{
    table_entry(block_id).color
}

/// Whether two strings hold the same characters.
fn same_name(a: &str, b: &str) -> (same: bool)
    ensures
        same == (a@ == b@),
{
    let x = a.as_bytes();
    let y = b.as_bytes();
    proof {
        encode_utf8_decode_utf8(a@);
        encode_utf8_decode_utf8(b@);
    }
    if x.len() != y.len() {
        return false;
    }
    let mut i: usize = 0;
    while i < x.len()
        invariant
            i <= x@.len(),
            x@.len() == y@.len(),
            x@ == a.spec_bytes(),
            y@ == b.spec_bytes(),
            forall|j: int| 0 <= j < i ==> x@[j] == y@[j],
        decreases x@.len() - i,
    {
        if x[i] != y[i] {
            return false;
        }
        i += 1;
    }
    assert(x@ =~= y@);
    true
}

/// The id of the kind of block called `block_name`, if there is one.
pub fn get_block_id(block_name: &str) -> (found: Option<u16>)
    ensures
        match found {
            Some(block_id) => is_known_block(block_id) && spec_block_name(block_id)
                == block_name@,
            None => forall|block_id: u16|
                is_known_block(block_id) ==> spec_block_name(block_id) != block_name@,
        },
{
    let mut block_id: u16 = 0;
    while block_id < NB_BLOCK_KINDS
        invariant
            block_id <= NB_BLOCK_KINDS,
            forall|other: u16| other < block_id ==> spec_block_name(other) != block_name@,
        decreases NB_BLOCK_KINDS - block_id,
    {
        if same_name(table_entry(block_id).name, block_name) {
            return Some(block_id);
        }
        block_id += 1;
    }
    None
}

/// No two kinds of block share a name.
pub proof fn lemma_block_names_differ(a: u16, b: u16)
    requires
        is_known_block(a),
        is_known_block(b),
        a != b,
    ensures
        spec_block_name(a) != spec_block_name(b),
{
    reveal_strlit("air_block");
    reveal_strlit("debug_block");
    reveal_strlit("dirt_block");
    reveal_strlit("grass_block");
    reveal_strlit("stone_block");
    reveal_strlit("sand_block");
    reveal_strlit("water_block");
    let x = spec_block_name(a);
    let y = spec_block_name(b);
    if x.len() == y.len() {
        assert(x[0] != y[0] || x[1] != y[1]);
    }
}

} // verus!
