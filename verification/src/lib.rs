//! A small block-scene toolkit: procedural cube-face meshes addressed into a
//! texture atlas, rigid placement transforms that assemble six faces into a
//! unit cube, a per-frame motion integrator, and a pickable-flag propagator
//! over a scene hierarchy.
//!
//! All quantities live in exact fixed-point units (see [`fixed::FP`]), so
//! every contract in this crate is stated and proved over plain integers.
//! A host engine that renders the meshes converts to its own scalar type at
//! the boundary.

pub mod fixed;
pub mod mesh;
pub mod faces;
pub mod motion;
pub mod scene;
