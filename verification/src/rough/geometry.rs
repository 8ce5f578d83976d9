use vstd::prelude::*;
use vstd::string::StringExecFns;
use crate::types::decimal::{decimal, decimal_string};

verus! {

/// A pixel.
#[derive(Debug, Clone, Copy, PartialEq, Eq)]
pub struct Point {
    pub x: i32,
    pub y: i32,
}

impl Point {
    /// The pixel in column `x` and row `y`.
    pub fn new(x: i32, y: i32) -> (r: Point)
        ensures
            r == (Point { x, y }),
    {
        Point { x, y }
    }
}

/// A box of pixels, by two opposite corners.
pub struct Rectangle {
    pub top_left: Point,
    pub bottom_right: Point,
}

/// A stroke from one pixel to another.
pub struct Line {
    pub start: Point,
    pub end: Point,
}

impl Line {
    /// The stroke from `start` to `end`.
    pub fn new(start: Point, end: Point) -> (r: Line)
        ensures
            r.start == start,
            r.end == end,
    {
        Line { start, end }
    }
}

/// One curve as a drawing instruction: a move to the first of the four
/// points, then a curve through the second and the third to the fourth,
/// every coordinate in decimal form.
pub open spec fn curve_text(points: [Point; 4]) -> Seq<char> {
    " M "@ + decimal(points[0].x as int) + " "@ + decimal(points[0].y as int) + " C "@ + decimal(
        points[1].x as int,
    ) + " "@ + decimal(points[1].y as int) + " "@ + decimal(points[2].x as int) + " "@ + decimal(
        points[2].y as int,
    ) + " "@ + decimal(points[3].x as int) + " "@ + decimal(points[3].y as int)
}

/// Writes one curve as a drawing instruction.
pub fn curve(points: &[Point; 4]) -> (r: String)
    ensures
        r@ == curve_text(*points),
{
    let mut path = String::from_str(" M ");
    path.append(decimal_string(points[0].x).as_str());
    path.append(" ");
    path.append(decimal_string(points[0].y).as_str());
    path.append(" C ");
    path.append(decimal_string(points[1].x).as_str());
    path.append(" ");
    path.append(decimal_string(points[1].y).as_str());
    path.append(" ");
    path.append(decimal_string(points[2].x).as_str());
    path.append(" ");
    path.append(decimal_string(points[2].y).as_str());
    path.append(" ");
    path.append(decimal_string(points[3].x).as_str());
    path.append(" ");
    path.append(decimal_string(points[3].y).as_str());
    path
}

} // verus!
