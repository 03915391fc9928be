//! Voxel storage.

pub mod chunk;
