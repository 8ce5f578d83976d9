use vstd::prelude::*;
use vstd::std_specs::convert::FromSpecImpl;

verus! {

/// A position in the plane, over whatever coordinate type the caller draws in.
#[derive(Debug, PartialEq)]
pub struct Point<T> {
    pub x: T,
    pub y: T,
}

/// A position on the editing grid.
pub type PointGrid = Point<crate::types::Int>;

impl<T: Copy> Clone for Point<T> {
    fn clone(&self) -> (r: Self)
        ensures
            r == *self,
    {
        Point { x: self.x, y: self.y }
    }
}

impl<T: Copy> Copy for Point<T> {

}

impl<T> From<(T, T)> for Point<T> {
    fn from(pair: (T, T)) -> (r: Self) {
        Point { x: pair.0, y: pair.1 }
    }
}

impl<T> FromSpecImpl<(T, T)> for Point<T> {
    open spec fn obeys_from_spec() -> bool {
        true
    }

    open spec fn from_spec(pair: (T, T)) -> Self {
        Point { x: pair.0, y: pair.1 }
    }
}

impl<T> From<Point<T>> for (T, T) {
    fn from(point: Point<T>) -> (r: Self) {
        (point.x, point.y)
    }
}

impl<T> FromSpecImpl<Point<T>> for (T, T) {
    open spec fn obeys_from_spec() -> bool {
        true
    }

    open spec fn from_spec(point: Point<T>) -> Self {
        (point.x, point.y)
    }
}

} // verus!
