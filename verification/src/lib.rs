//! Geometry, tile indexing and vector-tile styling for an interactive map.
//!
//! Coordinates are fixed-point integers: every length, resolution and position
//! is a whole number of the map's smallest unit, so all arithmetic is exact.

pub mod cartesian;
pub mod contour;
pub mod data_processor;
pub mod error;
pub mod feature_layer;
pub mod mvt;
mod numeric;
pub mod platform;
pub mod polygon;
pub mod projection;
pub mod render;
pub mod segment;
pub mod style;
pub mod tile_projection;
pub mod tile_scheme;
pub mod vt_processor;
