//! From the blocks of a chunk to the quads that draw it: the block
//! catalogue, face culling, face merging and quad emission.

pub mod blocks_resources;
pub mod covered_faces;
pub mod face_area;
pub mod greedy_mesh;
pub mod pre_mesh_creator;
pub mod pre_mesh_to_bundle_conveter;
pub mod renderer;
pub mod resource_extractor;
