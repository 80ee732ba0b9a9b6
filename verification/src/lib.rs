//! A terminal-canvas core: a painted-cell state model driven by pointer
//! events, decision tables for key and pointer input, and a deterministic
//! raster export that serializes the painted cells into a text grid.

pub mod cells;
pub mod input;
pub mod raster;
