//! Projection of a grid-based tile map into a renderable scene.
//!
//! The crate slices a tileset image into an ordered sprite atlas and turns a
//! rectangular grid of tile identifiers into placement records, one per
//! occupied cell, converting the map's top-left-origin row/column addressing
//! into the world-space convention of the target renderer. Map-file parsing,
//! texture loading and entity creation belong to the surrounding application;
//! the library works on plain values and is verified end to end.

pub mod atlas;
pub mod control;
pub mod error;
pub mod geometry;
pub mod project;
