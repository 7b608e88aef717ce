//! Bounding rectangles.
use vstd::prelude::*;
use crate::point::Point;
use crate::scalar::Scalar;

verus! {

/// A bounding rectangle, given by two corners. The corners are kept as they
/// were given: a rectangle whose `min` lies east of its `max` is one that
/// crosses the antimeridian, and is never reordered.
#[derive(Clone, Copy, Debug)]
pub struct Rect {
    pub min: Point,
    pub max: Point,
}

impl Rect {
    /// The rectangle with `c1` as its `min` corner and `c2` as its `max` corner.
    pub fn new(c1: Point, c2: Point) -> (r: Rect)
        ensures
            r.min == c1,
            r.max == c2,
    {
        Rect { min: c1, max: c2 }
    }

    pub fn min(self) -> (r: Point)
        ensures
            r == self.min,
    {
        self.min
    }

    pub fn max(self) -> (r: Point)
        ensures
            r == self.max,
    {
        self.max
    }
}

/// Whether a point lies in a bounding box, the sides included.
///
/// Between the latitudes of the two corners the point must lie as numbers do.
/// Its longitude is judged by `from_min` and `from_max`, the differences from
/// the longitudes of the `min` and of the `max` corner to the point's, each
/// normalized into the half-open range from -180 to 180 degrees: the point
/// must lie no farther west than `min` and no farther east than `max`. This
/// holds of a box that crosses the antimeridian as of any other.
pub open spec fn spec_inside_bbox(p: Point, bbox: Rect, from_min: Scalar, from_max: Scalar) -> bool {
    &&& bbox.min.y.spec_le(p.y)
    &&& p.y.spec_le(bbox.max.y)
    &&& (Scalar { bits: 0 }).spec_le(from_min)
    &&& from_max.spec_le(Scalar { bits: 0 })
}

pub fn inside_bbox(p: &Point, bbox: &Rect, from_min: Scalar, from_max: Scalar) -> (r: bool)
    ensures
        r == spec_inside_bbox(*p, *bbox, from_min, from_max),
{
    let zero = Scalar::zero();
    p.y().ge(&bbox.min().y()) && p.y().le(&bbox.max().y()) && from_min.ge(&zero) && from_max.le(
        &zero,
    )
}

} // verus!
