//! Streaming voxel terrain: bit-packed blocks, chunk storage, face culling,
//! run-length face merging, quad emission and chunk scheduling.

pub mod block;
pub mod chunk;
pub mod coordinates;
pub mod chunk_renderer;
pub mod chunk_set;
pub mod camera;
pub mod world;
pub mod chunks_manager;
pub mod world_generator;
