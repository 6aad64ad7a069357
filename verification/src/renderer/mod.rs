//! Voxel models and terrain: the integer grid logic of the renderer.

pub mod map_mesh;
pub mod palette;
pub mod voxel;
pub mod voxel_models;
pub mod voxel_world;
