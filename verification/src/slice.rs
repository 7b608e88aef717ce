//! The part of a line between two of its points.
use vstd::prelude::*;
use crate::point::{segment_count, Point};
use crate::point_on_line::PointOnLine;
use crate::projection::{point_on_line, spec_point_on_line, Candidate};

verus! {

/// Whether `a` comes after `b` along the line: on a later segment, or on the
/// same segment with a larger parameter.
pub open spec fn spec_comes_after(a: PointOnLine, b: PointOnLine) -> bool {
    a.index > b.index || (a.index == b.index && b.t.spec_lt(a.t))
}

pub fn comes_after(a: &PointOnLine, b: &PointOnLine) -> (r: bool)
    ensures
        r == spec_comes_after(*a, *b),
{
    a.index() > b.index() || (a.index() == b.index() && a.t().gt(&b.t()))
}

/// The part of `line` from `first` to `second`: the point `first`; the vertex
/// that ends its segment, unless that vertex coincides with it or lies past
/// `second`; the further vertices up to the one that starts the segment of
/// `second`; and the point `second`, unless it coincides with that last vertex.
pub open spec fn spec_slice_between(
    first: PointOnLine,
    second: PointOnLine,
    line: Seq<Point>,
) -> Seq<Point> {
    let l = first.index + 1;
    let r = second.index as int;
    seq![first.point] + (if l <= r && !line[l].spec_coincides(first.point) {
        seq![line[l]]
    } else {
        Seq::<Point>::empty()
    }) + (if l < r {
        line.subrange(l + 1, r + 1)
    } else {
        Seq::<Point>::empty()
    }) + (if !line[r].spec_coincides(second.point) {
        seq![second.point]
    } else {
        Seq::<Point>::empty()
    })
}

/// The part of a line between two of its points, `first` being the earlier
/// along the line.
pub fn slice_between(first: &PointOnLine, second: &PointOnLine, line: &Vec<Point>) -> (slice: Vec<
    Point,
>)
    requires
        first.index + 1 < line@.len(),
        second.index + 1 < line@.len(),
    ensures
        slice@ == spec_slice_between(*first, *second, line@),
{
    let n: usize = line.len();
    let mut slice: Vec<Point> = Vec::new();
    slice.push(first.point());
    let l: usize = first.index() + 1;
    let r: usize = second.index();
    if !line[l].coincides(&first.point()) && l <= r {
        slice.push(line[l]);
    }
    let ghost head = slice@;
    let mut i: usize = l + 1;
    while i <= r
        invariant
            l + 1 <= i,
            l < r ==> i <= r + 1,
            r + 1 < n,
            n == line@.len(),
            slice@ == head + (if l < r {
                line@.subrange(l + 1, i as int)
            } else {
                Seq::<Point>::empty()
            }),
        decreases r + 1 - i,
    {
        slice.push(line[i]);
        proof {
            assert(line@.subrange(l + 1, i as int).push(line@[i as int]) =~= line@.subrange(
                l + 1,
                i + 1,
            ));
        }
        i = i + 1;
    }
    if !line[r].coincides(&second.point()) {
        slice.push(second.point());
    }
    proof {
        assert(slice@ =~= spec_slice_between(*first, *second, line@));
    }
    slice
}

/// The part of a line between the closest points to a start and to a stop
/// point, as `spec_slice_between` gives it, running forward along the line
/// whichever of the two comes first. Where the line has no closest point, the
/// slice is empty.
pub open spec fn spec_line_slice(
    start: Seq<Candidate>,
    stop: Seq<Candidate>,
    line: Seq<Point>,
) -> Seq<Point> {
    match (spec_point_on_line(start), spec_point_on_line(stop)) {
        (Some(a), Some(b)) => if spec_comes_after(a, b) {
            spec_slice_between(b, a, line)
        } else {
            spec_slice_between(a, b, line)
        },
        _ => Seq::<Point>::empty(),
    }
}

/// The part of `line` between the closest points to a start and to a stop
/// point. `start` and `stop` hold what each segment of the line offers as the
/// closest point to the start and to the stop point, one candidate per
/// segment.
pub fn line_slice(start: &Vec<Candidate>, stop: &Vec<Candidate>, line: &Vec<Point>) -> (slice: Vec<
    Point,
>)
    requires
        start@.len() == segment_count(line@.len()),
        stop@.len() == segment_count(line@.len()),
    ensures
        slice@ == spec_line_slice(start@, stop@, line@),
        line@.len() < 2 ==> slice@.len() == 0,
        line@.len() >= 2 ==> slice@.len() >= 1,
{
    let pol1 = point_on_line(start);
    let pol2 = point_on_line(stop);
    match (pol1, pol2) {
        (Some(a), Some(b)) => {
            if comes_after(&a, &b) {
                slice_between(&b, &a, line)
            } else {
                slice_between(&a, &b, line)
            }
        },
        _ => Vec::new(),
    }
}

/// A slice runs forward along the line whichever way it was asked for: with
/// start and stop exchanged it is the same, as long as one of the two closest
/// points comes after the other or the two are the same.
pub proof fn line_slice_runs_forward(start: Seq<Candidate>, stop: Seq<Candidate>, line: Seq<Point>)
    requires
        match (spec_point_on_line(start), spec_point_on_line(stop)) {
            (Some(a), Some(b)) => spec_comes_after(a, b) || spec_comes_after(b, a) || a == b,
            _ => true,
        },
    ensures
        spec_line_slice(start, stop, line) == spec_line_slice(stop, start, line),
{
}

} // verus!
