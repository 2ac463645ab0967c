//! Points and vectors of the canvas.

use vstd::prelude::*;
use crate::scalar::{same_value, same_value_spec, ZERO};

verus! {

/// A position on the canvas.
#[derive(Clone, Copy, Debug, PartialEq, Eq, Structural)]
pub struct Point {
    /// The bits of the horizontal coordinate.
    pub x: u32,
    /// The bits of the vertical coordinate.
    pub y: u32,
}

/// A pair of extents along the two axes.
#[derive(Clone, Copy, Debug, PartialEq, Eq, Structural)]
pub struct Vector {
    /// The bits of the horizontal extent.
    pub x: u32,
    /// The bits of the vertical extent.
    pub y: u32,
}

impl Point {
    /// The origin of the canvas.
    pub open spec fn origin_spec() -> Point {
        Point { x: ZERO, y: ZERO }
    }

    /// Whether two points lie at the same place, coordinate by coordinate.
    pub open spec fn coincides_spec(self, other: Point) -> bool {
        same_value_spec(self.x, other.x) && same_value_spec(self.y, other.y)
    }

    pub fn new(x: u32, y: u32) -> (p: Point)
        ensures
            p == (Point { x, y }),
    {
        Point { x, y }
    }

    #[verifier::when_used_as_spec(origin_spec)]
    pub fn origin() -> (p: Point)
        ensures
            p == Point::origin_spec(),
    {
        Point { x: ZERO, y: ZERO }
    }

    #[verifier::when_used_as_spec(coincides_spec)]
    pub fn coincides(self, other: Point) -> (r: bool)
        ensures
            r == self.coincides_spec(other),
    {
        same_value(self.x, other.x) && same_value(self.y, other.y)
    }
}

impl Vector {
    pub fn new(x: u32, y: u32) -> (v: Vector)
        ensures
            v == (Vector { x, y }),
    {
        Vector { x, y }
    }
}

} // verus!
