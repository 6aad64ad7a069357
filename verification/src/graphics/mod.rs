//! Software framebuffer, 2D drawing primitives and rendering bookkeeping.

pub mod cursor;
pub mod edges;
pub mod font;
pub mod framebuffer;
pub mod gpu;
pub mod gpu3d;
pub mod gpu_batch;
pub mod gpu_render;
pub mod tiles;
pub mod ui;
pub mod vsync;
