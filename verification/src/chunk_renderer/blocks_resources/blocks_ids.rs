//! The id of each kind of block, by name.

use vstd::prelude::*;

verus! {

pub const AIR_BLOCK: u16 = 0;

pub const DEBUG_BLOCK: u16 = 1;

pub const DIRT_BLOCK: u16 = 2;

pub const GRASS_BLOCK: u16 = 3;

pub const STONE_BLOCK: u16 = 4;

pub const SAND_BLOCK: u16 = 5;

pub const WATER_BLOCK: u16 = 6;

} // verus!
