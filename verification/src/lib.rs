//! Kind-aware algebra for four-component tuples (points, vectors, colors)
//! over fixed-point scalar coordinates.

pub mod primitives;
