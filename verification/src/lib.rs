//! A grid-based first-person world: layered tile maps, the scene objects a
//! map turns into, and the per-frame decisions of the camera and of the
//! sprites that face it.
//!
//! Everything here works on plain values. Numbers that are single-precision
//! in the running scene are carried as [`scalar::Scalar`] bit patterns, and
//! the geometry itself (rotations, normalisation) is left to the caller.

pub mod scalar;
pub mod tile;
pub mod grid;
pub mod scene;
pub mod world;
pub mod camera;
pub mod billboard;
pub mod components;
