//! The closest point of a line to a given point.
use vstd::prelude::*;
use crate::point::Point;
use crate::scalar::Scalar;

verus! {

/// A point of a line: where it is, on which segment, and how far along that
/// segment, from 0 at the segment's first vertex to 1 at its second.
#[derive(Clone, Copy, Debug)]
pub struct PointOnLine {
    pub point: Point,
    pub index: usize,
    pub t: Scalar,
}

impl PointOnLine {
    pub fn new(point: Point, index: usize, t: Scalar) -> (r: PointOnLine)
        ensures
            r.point == point,
            r.index == index,
            r.t == t,
    {
        PointOnLine { point, index, t }
    }

    pub fn point(&self) -> (r: Point)
        ensures
            r == self.point,
    {
        self.point
    }

    pub fn index(&self) -> (r: usize)
        ensures
            r == self.index,
    {
        self.index
    }

    pub fn t(&self) -> (r: Scalar)
        ensures
            r == self.t,
    {
        self.t
    }
}

} // verus!
