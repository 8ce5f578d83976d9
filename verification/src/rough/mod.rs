//! Integer geometry for what is drawn on the pixel raster.

pub mod geometry;

pub use geometry::Point;
