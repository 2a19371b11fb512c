//! Screen-space text overlay rendering: per-glyph layout, triangle batching,
//! and the GPU command streams that a host executes to draw the result.

pub mod commands;
pub mod font;
pub mod geometry;
pub mod layout;
pub mod renderer;
