//! Conway's Game of Life on a torus: a double-buffered grid of cells that
//! advances one generation at a time, with every operation stated over a
//! mathematical model of the generation and proved against it.

pub mod cell;
pub mod generation;
pub mod grid;
pub mod random;
pub mod patterns;
