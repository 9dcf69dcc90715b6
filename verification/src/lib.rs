//! Terrain chunk layout and camera navigation, as integer logic with proofs.
//!
//! `chunk` lays out one square tile of a height-field: where each vertex
//! samples the world, and how the vertices are joined into triangles.
//! `fixed` holds the fixed-point units of angles, lengths and durations, and
//! `camera` keeps the state of a free-flying and of an orbiting camera in
//! those units and applies navigation commands to it.
//!
//! Heights, sines and cosines, and rendering types are floating point and
//! live with the caller; this crate decides every coordinate, index, bound
//! and wrap.

pub mod chunk;
pub mod fixed;
pub mod camera;
