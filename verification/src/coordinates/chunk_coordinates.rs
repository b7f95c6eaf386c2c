//! The world origin of a chunk.

use vstd::prelude::*;

verus! {

/// The integer world position of a chunk's origin corner.
#[derive(Clone, Copy, Debug)]
pub struct ChunkCoordinates {
    x: i32,
    y: i32,
    z: i32,
}

impl View for ChunkCoordinates {
    type V = (i32, i32, i32);

    closed spec fn view(&self) -> (i32, i32, i32) {
        (self.x, self.y, self.z)
    }
}

impl Default for ChunkCoordinates {
    fn default() -> (coords: ChunkCoordinates)
        ensures
            coords@ == (0i32, 0i32, 0i32),
    {
        ChunkCoordinates { x: 0, y: 0, z: 0 }
    }
}

impl ChunkCoordinates {
    pub fn new(x: i32, y: i32, z: i32) -> (coords: ChunkCoordinates)
        ensures
            coords@ == (x, y, z),
    {
        ChunkCoordinates { x, y, z }
    }

    pub fn to_tuple(&self) -> (tuple: (i32, i32, i32))
        ensures
            tuple == self@,
    {
        (self.x, self.y, self.z)
    }
}

} // verus!
