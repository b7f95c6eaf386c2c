//! What the renderer takes from the block catalogue.

use vstd::prelude::*;
use crate::chunk_renderer::blocks_resources;
use crate::chunk_renderer::blocks_resources::{
    is_known_block,
    spec_block_color,
    spec_block_is_transparent,
};

verus! {

/// Whether a face behind the kind of block `block_id` can be seen.
pub fn block_is_transparent(block_id: u16) -> (transparent: bool)
    requires
        is_known_block(block_id),
    ensures
        transparent == spec_block_is_transparent(block_id),
{
    blocks_resources::block_is_transparent(block_id)
}

/// The colour that faces of the kind of block `block_id` are drawn with.
pub fn block_color(block_id: u16) -> (color: Option<u32>)
    requires
        is_known_block(block_id),
    ensures
        color == spec_block_color(block_id),
{
    blocks_resources::block_color(block_id)
}

} // verus!
