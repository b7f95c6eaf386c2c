//! The viewpoints that chunks are loaded around.

use vstd::prelude::*;

verus! {

/// The world position of a viewpoint, in whole blocks.
#[derive(Clone, Copy, Debug, PartialEq, Eq, Structural)]
pub struct Position {
    pub x: i32,
    pub y: i32,
    pub z: i32,
}

} // verus!
