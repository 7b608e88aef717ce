//! Projecting a point onto a line: the choices made along the way.
//!
//! For each segment of the line the caller works out, in the ruler's scaled
//! plane, the segment's extent `(dx, dy)` and, unless the segment is
//! degenerate, the projection parameter `t` of the point. This module says
//! which part of the segment is then closest to the point, and which of the
//! segments' closest points is the closest of all.
use vstd::prelude::*;
use crate::point::Point;
use crate::point_on_line::PointOnLine;
use crate::scalar::{Scalar, INFINITY_BITS, ONE_BITS};

verus! {

/// The part of a segment that is closest to a point.
#[derive(Debug, PartialEq, Eq, Clone, Copy, Structural)]
pub enum SegmentPart {
    /// The segment's first vertex.
    Start,
    /// The foot of the perpendicular, past the first vertex and not past the
    /// second.
    Interior,
    /// The segment's second vertex.
    End,
}

/// What one segment offers: its closest point to the query point, the
/// projection parameter that led there, and the squared distance from the
/// query point to it.
#[derive(Clone, Copy, Debug)]
pub struct Candidate {
    pub point: Point,
    pub t: Scalar,
    pub square_distance: Scalar,
}

/// Whether a segment of extent `(dx, dy)` has no length: both are zero. For
/// such a segment no projection parameter is computed, its first vertex is the
/// closest point and its parameter is zero.
pub fn is_degenerate(dx: Scalar, dy: Scalar) -> (r: bool)
    ensures
        r == (dx.spec_is_zero() && dy.spec_is_zero()),
{
    dx.is_zero() && dy.is_zero()
}

pub open spec fn spec_segment_part(t: Scalar) -> SegmentPart {
    if (Scalar { bits: ONE_BITS }).spec_lt(t) {
        SegmentPart::End
    } else if (Scalar { bits: 0 }).spec_lt(t) {
        SegmentPart::Interior
    } else {
        SegmentPart::Start
    }
}

/// The part of a segment that the projection parameter `t` points at: the
/// second vertex where `t > 1`, the interior where `0 < t <= 1`, and the first
/// vertex otherwise.
pub fn segment_part(t: Scalar) -> (r: SegmentPart)
    ensures
        r == spec_segment_part(t),
{
    if t.gt(&Scalar::one()) {
        SegmentPart::End
    } else if t.gt(&Scalar::zero()) {
        SegmentPart::Interior
    } else {
        SegmentPart::Start
    }
}

/// A candidate can be chosen only if its squared distance is below infinity.
pub open spec fn eligible(c: Candidate) -> bool {
    c.square_distance.spec_lt(Scalar { bits: INFINITY_BITS })
}

/// Candidate `i` is the nearest of the first `n`: it is eligible, every
/// candidate before it is strictly farther, and none after it is closer. A
/// candidate whose squared distance is a NaN is never in the way.
pub open spec fn is_nearest_of(candidates: Seq<Candidate>, i: int, n: int) -> bool {
    &&& 0 <= i < n <= candidates.len()
    &&& eligible(candidates[i])
    &&& forall|j: int|
        0 <= j < i && !(#[trigger] candidates[j]).square_distance.spec_is_nan()
            ==> candidates[i].square_distance.spec_lt(candidates[j].square_distance)
    &&& forall|j: int|
        i < j < n && !(#[trigger] candidates[j]).square_distance.spec_is_nan()
            ==> candidates[i].square_distance.spec_le(candidates[j].square_distance)
}

/// Candidate `i` is the nearest of all.
pub open spec fn is_nearest(candidates: Seq<Candidate>, i: int) -> bool {
    is_nearest_of(candidates, i, candidates.len() as int)
}

/// What is reported where no candidate is eligible: the point (0, 0) on
/// segment 0 with parameter 0.
pub open spec fn nothing_near() -> PointOnLine {
    PointOnLine {
        point: Point { x: Scalar { bits: 0 }, y: Scalar { bits: 0 } },
        index: 0,
        t: Scalar { bits: 0 },
    }
}

/// At most one candidate is the nearest.
pub proof fn nearest_is_unique(candidates: Seq<Candidate>, i: int, j: int)
    requires
        is_nearest(candidates, i),
        is_nearest(candidates, j),
    ensures
        i == j,
{
}

/// The closest point of a line with the given candidates, one per segment:
/// none for a line without segments; else the nearest candidate, on its
/// segment, with its parameter clamped into the unit interval.
pub open spec fn spec_point_on_line(candidates: Seq<Candidate>) -> Option<PointOnLine> {
    if candidates.len() == 0 {
        None
    } else if exists|i: int| is_nearest(candidates, i) {
        let i = choose|i: int| is_nearest(candidates, i);
        Some(
            PointOnLine {
                point: candidates[i].point,
                index: i as usize,
                t: candidates[i].t.spec_clamp_unit(),
            },
        )
    } else {
        Some(nothing_near())
    }
}

/// The closest point of a line, given one candidate per segment, in the order
/// of the segments.
///
/// A line without segments has no closest point. Otherwise the nearest
/// candidate is reported, with the index of its segment and its parameter
/// clamped into the unit interval, so that the index is that of a segment and
/// the parameter lies between 0 and 1.
pub fn point_on_line(candidates: &Vec<Candidate>) -> (r: Option<PointOnLine>)
    ensures
        r == spec_point_on_line(candidates@),
        r is None <==> candidates@.len() == 0,
        r matches Some(p) ==> {
            &&& p.index < candidates@.len()
            &&& p.t.in_unit_interval()
            &&& (exists|i: int| 0 <= i < candidates@.len() && eligible(#[trigger] candidates@[i]))
                ==> {
                &&& is_nearest(candidates@, p.index as int)
                &&& p.point == candidates@[p.index as int].point
                &&& p.t == candidates@[p.index as int].t.spec_clamp_unit()
            }
            &&& (forall|i: int| 0 <= i < candidates@.len() ==> !eligible(#[trigger] candidates@[i]))
                ==> p == nothing_near()
        },
{
    let n: usize = candidates.len();
    if n == 0 {
        return None;
    }
    let mut min_dist: Scalar = Scalar::infinity();
    let mut min_point: Point = Point::new(Scalar::zero(), Scalar::zero());
    let mut min_i: usize = 0;
    let mut min_t: Scalar = Scalar::zero();
    let ghost mut found: bool = false;
    let mut i: usize = 0;
    while i < n
        invariant
            n == candidates@.len(),
            0 <= i <= n,
            min_i < n,
            !found ==> {
                &&& min_dist.bits == INFINITY_BITS
                &&& min_i == 0
                &&& min_t.bits == 0
                &&& min_point == nothing_near().point
                &&& forall|j: int| 0 <= j < i ==> !eligible(#[trigger] candidates@[j])
            },
            found ==> {
                &&& is_nearest_of(candidates@, min_i as int, i as int)
                &&& min_dist == candidates@[min_i as int].square_distance
                &&& min_point == candidates@[min_i as int].point
                &&& min_t == candidates@[min_i as int].t
            },
        decreases n - i,
    {
        let c: Candidate = candidates[i];
        if c.square_distance.lt(&min_dist) {
            min_dist = c.square_distance;
            min_point = c.point;
            min_i = i;
            min_t = c.t;
            proof {
                found = true;
            }
        }
        i = i + 1;
    }
    proof {
        if found {
            assert(is_nearest(candidates@, min_i as int));
            nearest_is_unique(
                candidates@,
                choose|k: int| is_nearest(candidates@, k),
                min_i as int,
            );
        } else {
            assert(Scalar { bits: 0 }.spec_clamp_unit() == Scalar { bits: 0 });
        }
    }
    Some(PointOnLine::new(min_point, min_i, min_t.clamp_unit()))
}

} // verus!
