//! Procedural terrain-mesh generation over a scalar height field.
//!
//! The crate turns a rectangular lattice of elevation samples into a
//! triangulated surface: vertex positions, per-vertex normals, texture
//! coordinates and a triangle index buffer.  All mesh arithmetic is done
//! exactly, over integers and rational coordinates, so every buffer the
//! crate emits is pinned down by its contract; converting the exact
//! coordinates to a renderer's floating-point format is the caller's last,
//! trivial step.

pub mod grid;
pub mod heights;
pub mod laws;
pub mod mesh;
