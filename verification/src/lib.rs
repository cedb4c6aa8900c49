//! Core of an incremental map-tile pipeline for voxel worlds: coordinate and
//! path derivation, versioned cache validity, region processing with biome
//! interning, tile compositing, mipmap construction, and run planning.

pub mod coords;
pub mod text;
pub mod cache;
pub mod tile_coord_map;
pub mod region;
pub mod raster;
pub mod render;
pub mod patterns;
pub mod entities;
pub mod paths;
pub mod mipmap;
pub mod pipeline;
