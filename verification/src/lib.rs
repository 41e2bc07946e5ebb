//! Core of a chunk-streamed dungeon: a bounds index over loaded chunks, a
//! wall-code generator that keeps neighboring chunks consistent, a streaming
//! controller that decides which chunks to request, and a movement resolver
//! that advances an actor against a per-cell obstacle grid.
//!
//! World coordinates are fixed-point: an `i64` counts `FX_ONE`-ths of a world
//! pixel, so continuous positions, speeds and elapsed times are exact values
//! the verifier can reason about.

pub mod coords;
pub mod grid;
pub mod index;
pub mod movement;
pub mod names;
pub mod rng;
pub mod stream;
pub mod walls;

pub use coords::CHUNK_EDGE;
pub use coords::FX_ONE;
pub use coords::WorldPoint;
