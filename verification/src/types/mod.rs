//! Plain value types shared by every other module.

use vstd::prelude::*;

pub mod decimal;
mod geometry;

pub use geometry::Point;
pub use geometry::PointGrid;

verus! {

/// The identity of a shape: assigned once, never given to another shape.
pub type Guid = i32;

/// The coordinate type of the editing grid.
pub type Int = i32;

} // verus!
