//! Shapes in a flat coordinate space.

pub mod contour;
pub mod point;
pub mod polygon;
pub mod rect;
pub mod size;
