//! Escape-time values for tiles of the Mandelbrot set.
//!
//! Given a zoom level, tile coordinates, a tile edge length and an iteration
//! budget, the library produces one 32-bit float per pixel, in row-major
//! order: `0.0` for a pixel whose orbit did not escape within the budget (or
//! was recognised as interior), and otherwise a continuous escape-time
//! estimate. All doubles are carried as their IEEE 754 bit patterns (`u64`),
//! and all 32-bit floats as theirs (`u32`); the arithmetic is done by a
//! software implementation of IEEE 754 behind the trusted items of
//! [`ieee`].

pub mod consts;
pub mod escape;
pub mod ieee;
pub mod interior;
pub mod tile;
pub mod transcend;
