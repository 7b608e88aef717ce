//! Points on the map, and lines of them.
use vstd::prelude::*;
use crate::scalar::Scalar;

verus! {

/// A point: `x` is its longitude and `y` its latitude, both in degrees.
#[derive(Clone, Copy, Debug)]
pub struct Point {
    pub x: Scalar,
    pub y: Scalar,
}

impl Point {
    /// Whether two points have equal coordinates, as numbers: a point with a
    /// NaN coordinate coincides with no point, not even with itself.
    pub open spec fn spec_coincides(self, other: Point) -> bool {
        self.x.spec_equals(other.x) && self.y.spec_equals(other.y)
    }

    pub fn new(x: Scalar, y: Scalar) -> (r: Point)
        ensures
            r.x == x,
            r.y == y,
    {
        Point { x, y }
    }

    pub fn x(&self) -> (r: Scalar)
        ensures
            r == self.x,
    {
        self.x
    }

    pub fn y(&self) -> (r: Scalar)
        ensures
            r == self.y,
    {
        self.y
    }

    pub fn coincides(&self, other: &Point) -> (r: bool)
        ensures
            r == self.spec_coincides(*other),
    {
        self.x.equals(&other.x) && self.y.equals(&other.y)
    }
}

/// The number of segments of a line of `points` points: a line is a sequence
/// of points, each but the last joined to the next.
pub open spec fn segment_count(points: nat) -> nat {
    if points == 0 {
        0
    } else {
        (points - 1) as nat
    }
}

} // verus!
