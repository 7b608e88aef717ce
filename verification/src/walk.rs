//! Walking a line by distance.
//!
//! The caller measures the line: `sums[i]` is the length of the line from its
//! first point to the end of segment `i`. This module finds the places that lie
//! a given distance along the line; where such a place lies within a segment,
//! the caller interpolates between the segment's two vertices.
use vstd::prelude::*;
use crate::scalar::Scalar;
use crate::point::segment_count;

verus! {

/// A place on a line.
#[derive(Debug, PartialEq, Eq, Clone, Copy, Structural)]
pub enum Along {
    /// The vertex with this index.
    Vertex(usize),
    /// Within the segment with this index, before its end.
    Within(usize),
}

/// A piece of the plan for a slice of a line.
#[derive(Debug, PartialEq, Eq, Clone, Copy, Structural)]
pub enum SlicePiece {
    /// The point at the start distance, which lies in the segment with this index.
    Start(usize),
    /// The vertex with this index.
    Vertex(usize),
    /// The point at the stop distance, which lies in the segment with this index.
    Stop(usize),
}

impl SlicePiece {
    /// Whether the piece names a segment, or a vertex that ends a segment, of
    /// a line of `segments` segments.
    pub open spec fn on_line(self, segments: nat) -> bool {
        match self {
            SlicePiece::Start(i) => i < segments,
            SlicePiece::Vertex(v) => 0 < v <= segments,
            SlicePiece::Stop(i) => i < segments,
        }
    }
}

/// No running sum among the first `n` exceeds `dist`.
pub open spec fn none_beyond(sums: Seq<Scalar>, dist: Scalar, n: int) -> bool {
    forall|j: int| 0 <= j < n && j < sums.len() ==> !dist.spec_lt(#[trigger] sums[j])
}

/// The running sums never decrease.
pub open spec fn nondecreasing(sums: Seq<Scalar>) -> bool {
    forall|i: int, j: int|
        0 <= i <= j < sums.len() ==> (#[trigger] sums[i]).spec_le(#[trigger] sums[j])
}

/// The length of the whole line: the last running sum, and zero for a line
/// without segments.
pub open spec fn total(sums: Seq<Scalar>) -> Scalar {
    if sums.len() == 0 {
        Scalar { bits: 0 }
    } else {
        sums.last()
    }
}

/// The first segment, from segment `from` on, at whose end the running sum
/// exceeds `dist`; the number of segments where there is none.
pub open spec fn first_beyond(sums: Seq<Scalar>, dist: Scalar, from: int) -> int
    decreases sums.len() - from,
{
    if from < 0 || from >= sums.len() {
        sums.len() as int
    } else if dist.spec_lt(sums[from]) {
        from
    } else {
        first_beyond(sums, dist, from + 1)
    }
}

/// The first segment, from segment `from` on, at whose end the running sum
/// reaches `dist`; the number of segments where there is none.
pub open spec fn first_reaching(sums: Seq<Scalar>, dist: Scalar, from: int) -> int
    decreases sums.len() - from,
{
    if from < 0 || from >= sums.len() {
        sums.len() as int
    } else if dist.spec_le(sums[from]) {
        from
    } else {
        first_reaching(sums, dist, from + 1)
    }
}

/// The place that lies `dist` along a line of `points` points.
///
/// An empty line has no places. A distance of zero or less leads to the first
/// point. Otherwise the place lies within the first segment at whose end the
/// running sum exceeds `dist`, and where there is none, it is the last point.
/// So a distance that is positive and not less than the length of the whole
/// line leads to the last point, as long as the running sums never decrease.
pub fn along(points: usize, sums: &Vec<Scalar>, dist: Scalar) -> (r: Option<Along>)
    requires
        sums@.len() == segment_count(points as nat),
    ensures
        points == 0 <==> r is None,
        points > 0 && dist.spec_le(Scalar { bits: 0 }) ==> r == Some(Along::Vertex(0)),
        points > 0 && !dist.spec_le(Scalar { bits: 0 }) ==> match r {
            Some(Along::Within(i)) => i < sums@.len() && dist.spec_lt(sums@[i as int])
                && none_beyond(sums@, dist, i as int),
            Some(Along::Vertex(v)) => v == points - 1 && none_beyond(
                sums@,
                dist,
                sums@.len() as int,
            ),
            None => false,
        },
        points > 0 && !dist.spec_le(Scalar { bits: 0 }) ==> r == if first_beyond(sums@, dist, 0)
            < sums@.len() {
            Some(Along::Within(first_beyond(sums@, dist, 0) as usize))
        } else {
            Some(Along::Vertex((points - 1) as usize))
        },
        points > 0 && (points == 1 || (Scalar { bits: 0 }).spec_lt(dist)) && nondecreasing(sums@)
            && total(sums@).spec_le(dist) ==> r == Some(Along::Vertex((points - 1) as usize)),
{
    if points == 0 {
        return None;
    }
    if dist.le(&Scalar::zero()) {
        return Some(Along::Vertex(0));
    }
    let last_index: usize = points - 1;
    let mut i: usize = 0;
    while i < last_index
        invariant
            0 <= i <= last_index,
            last_index == sums@.len(),
            points == last_index + 1,
            !dist.spec_le(Scalar { bits: 0 }),
            none_beyond(sums@, dist, i as int),
            first_beyond(sums@, dist, 0) == first_beyond(sums@, dist, i as int),
        decreases last_index - i,
    {
        if sums[i].gt(&dist) {
            proof {
                if nondecreasing(sums@) {
                    assert(sums@[i as int].spec_le(sums@[sums@.len() - 1]));
                }
            }
            return Some(Along::Within(i));
        }
        i = i + 1;
    }
    Some(Along::Vertex(last_index))
}

/// The plan for the slice from distance `start` to distance `stop`, from
/// segment `i` on; `empty` says whether nothing is planned yet.
///
/// In each segment, in this order: where the running sum exceeds `start` and
/// nothing is planned yet, the point at `start`; where the running sum reaches
/// `stop`, the point at `stop`, which ends the plan; else, where the running
/// sum exceeds `start`, the vertex that ends the segment.
pub open spec fn plan_from(
    sums: Seq<Scalar>,
    start: Scalar,
    stop: Scalar,
    i: int,
    empty: bool,
) -> Seq<SlicePiece>
    decreases sums.len() - i,
{
    if i < 0 || i >= sums.len() {
        Seq::<SlicePiece>::empty()
    } else {
        let begun = start.spec_lt(sums[i]);
        let head = if begun && empty {
            seq![SlicePiece::Start(i as usize)]
        } else {
            Seq::<SlicePiece>::empty()
        };
        if stop.spec_le(sums[i]) {
            head + seq![SlicePiece::Stop(i as usize)]
        } else if begun {
            head + seq![SlicePiece::Vertex((i + 1) as usize)] + plan_from(
                sums,
                start,
                stop,
                i + 1,
                false,
            )
        } else {
            plan_from(sums, start, stop, i + 1, empty)
        }
    }
}

/// The vertices with the indices from `from` up to, but without, `to`.
pub open spec fn vertices(from: int, to: int) -> Seq<SlicePiece> {
    Seq::new(
        if to > from {
            (to - from) as nat
        } else {
            0
        },
        |k: int| SlicePiece::Vertex((from + k) as usize),
    )
}

/// The plan for a slice of a line whose running sums never decrease, in one
/// piece. Where the stop distance is reached in segment `b`, before the start
/// distance is exceeded, the plan is the point at the stop distance alone.
/// Otherwise the start distance is exceeded in a segment `a`, the plan begins
/// with the point at the start distance, goes on with the vertices that end
/// the segments from `a` up to, but without, `b`, and ends with the point at
/// the stop distance; where the stop distance is never reached, the vertices
/// run to the end of the line, and where the start distance is never
/// exceeded, the plan is empty.
pub open spec fn plan_in_order(sums: Seq<Scalar>, start: Scalar, stop: Scalar) -> Seq<SlicePiece> {
    let n = sums.len() as int;
    let a = first_beyond(sums, start, 0);
    let b = first_reaching(sums, stop, 0);
    if b < a {
        seq![SlicePiece::Stop(b as usize)]
    } else {
        (if a < n {
            seq![SlicePiece::Start(a as usize)]
        } else {
            Seq::<SlicePiece>::empty()
        }) + vertices(a + 1, b + 1) + (if b < n {
            seq![SlicePiece::Stop(b as usize)]
        } else {
            Seq::<SlicePiece>::empty()
        })
    }
}

/// `first_beyond` is what its name says: no segment before it, from `from`
/// on, has a running sum that exceeds `dist`, and its own does.
pub proof fn first_beyond_is_first(sums: Seq<Scalar>, dist: Scalar, from: int)
    requires
        0 <= from <= sums.len(),
    ensures
        from <= first_beyond(sums, dist, from) <= sums.len(),
        first_beyond(sums, dist, from) < sums.len() ==> dist.spec_lt(
            sums[first_beyond(sums, dist, from)],
        ),
        forall|j: int|
            from <= j < first_beyond(sums, dist, from) ==> !dist.spec_lt(#[trigger] sums[j]),
    decreases sums.len() - from,
{
    if from < sums.len() && !dist.spec_lt(sums[from]) {
        first_beyond_is_first(sums, dist, from + 1);
    }
}

/// `first_reaching` is what its name says: no segment before it, from `from`
/// on, has a running sum that reaches `dist`, and its own does.
pub proof fn first_reaching_is_first(sums: Seq<Scalar>, dist: Scalar, from: int)
    requires
        0 <= from <= sums.len(),
    ensures
        from <= first_reaching(sums, dist, from) <= sums.len(),
        first_reaching(sums, dist, from) < sums.len() ==> dist.spec_le(
            sums[first_reaching(sums, dist, from)],
        ),
        forall|j: int|
            from <= j < first_reaching(sums, dist, from) ==> !dist.spec_le(#[trigger] sums[j]),
    decreases sums.len() - from,
{
    if from < sums.len() && !dist.spec_le(sums[from]) {
        first_reaching_is_first(sums, dist, from + 1);
    }
}

proof fn plan_from_in_order(sums: Seq<Scalar>, start: Scalar, stop: Scalar, i: int, empty: bool)
    requires
        nondecreasing(sums),
        0 <= i <= sums.len(),
        forall|j: int| 0 <= j < i ==> !stop.spec_le(#[trigger] sums[j]),
        empty ==> forall|j: int| 0 <= j < i ==> !start.spec_lt(#[trigger] sums[j]),
        !empty ==> i > 0 && start.spec_lt(sums[i - 1]),
    ensures
        plan_from(sums, start, stop, i, empty) == if empty {
            plan_in_order(sums, start, stop)
        } else {
            vertices(i + 1, first_reaching(sums, stop, 0) + 1) + (if first_reaching(sums, stop, 0)
                < sums.len() {
                seq![SlicePiece::Stop(first_reaching(sums, stop, 0) as usize)]
            } else {
                Seq::<SlicePiece>::empty()
            })
        },
    decreases sums.len() - i,
{
    let n = sums.len() as int;
    let a = first_beyond(sums, start, 0);
    let b = first_reaching(sums, stop, 0);
    first_beyond_is_first(sums, start, 0);
    first_reaching_is_first(sums, stop, 0);
    let stop_piece = if b < n {
        seq![SlicePiece::Stop(b as usize)]
    } else {
        Seq::<SlicePiece>::empty()
    };
    if i == n {
        assert(b == n);
        assert(vertices(n + 1, n + 1) =~= Seq::<SlicePiece>::empty());
        if empty {
            assert(a == n);
            assert(plan_in_order(sums, start, stop) =~= Seq::<SlicePiece>::empty());
        } else {
            assert(vertices(i + 1, b + 1) + stop_piece =~= Seq::<SlicePiece>::empty());
        }
    } else {
        let begun = start.spec_lt(sums[i]);
        if !empty {
            assert(sums[i - 1].spec_le(sums[i]));
            assert(begun);
        }
        if stop.spec_le(sums[i]) {
            assert(b == i);
            assert(vertices(i + 1, i + 1) =~= Seq::<SlicePiece>::empty());
            if empty {
                if begun {
                    assert(a == i);
                    assert(plan_in_order(sums, start, stop) =~= seq![SlicePiece::Start(i as usize)]
                        + seq![SlicePiece::Stop(i as usize)]);
                } else {
                    assert(a > i);
                }
            } else {
                assert(vertices(i + 1, b + 1) + stop_piece =~= seq![SlicePiece::Stop(i as usize)]);
            }
        } else {
            assert(b > i);
            if begun {
                plan_from_in_order(sums, start, stop, i + 1, false);
                assert(vertices(i + 1, b + 1) =~= seq![SlicePiece::Vertex((i + 1) as usize)]
                    + vertices(i + 2, b + 1));
                if empty {
                    assert(a == i);
                    assert(plan_in_order(sums, start, stop) =~= seq![SlicePiece::Start(i as usize)]
                        + seq![SlicePiece::Vertex((i + 1) as usize)] + (vertices(i + 2, b + 1)
                        + stop_piece));
                } else {
                    assert(vertices(i + 1, b + 1) + stop_piece =~= seq![
                        SlicePiece::Vertex((i + 1) as usize),
                    ] + (vertices(i + 2, b + 1) + stop_piece));
                }
            } else {
                plan_from_in_order(sums, start, stop, i + 1, true);
            }
        }
    }
}

/// Of a line whose running sums never decrease, the plan for a slice is
/// `plan_in_order`.
pub proof fn plan_of_a_measured_line(sums: Seq<Scalar>, start: Scalar, stop: Scalar)
    requires
        nondecreasing(sums),
    ensures
        plan_from(sums, start, stop, 0, true) == plan_in_order(sums, start, stop),
{
    plan_from_in_order(sums, start, stop, 0, true);
}

/// The plan for the part of a line between two distances along it: which
/// points make up the slice, in order. A line without segments gives an empty
/// plan. Where the running sums never decrease, the plan is `plan_in_order`.
pub fn line_slice_along(start: Scalar, stop: Scalar, sums: &Vec<Scalar>) -> (plan: Vec<SlicePiece>)
    ensures
        plan@ == plan_from(sums@, start, stop, 0, true),
        nondecreasing(sums@) ==> plan@ == plan_in_order(sums@, start, stop),
        forall|k: int| 0 <= k < plan@.len() ==> (#[trigger] plan@[k]).on_line(sums@.len()),
        sums@.len() == 0 ==> plan@.len() == 0,
{
    proof {
        if nondecreasing(sums@) {
            plan_of_a_measured_line(sums@, start, stop);
        }
    }
    let n: usize = sums.len();
    let mut plan: Vec<SlicePiece> = Vec::new();
    let mut i: usize = 0;
    while i < n
        invariant
            0 <= i <= n,
            n == sums@.len(),
            forall|k: int| 0 <= k < plan@.len() ==> (#[trigger] plan@[k]).on_line(sums@.len()),
            nondecreasing(sums@) ==> plan_from(sums@, start, stop, 0, true) == plan_in_order(
                sums@,
                start,
                stop,
            ),
            plan_from(sums@, start, stop, 0, true) == plan@ + plan_from(
                sums@,
                start,
                stop,
                i as int,
                plan@.len() == 0,
            ),
        decreases n - i,
    {
        let sum: Scalar = sums[i];
        let ghost before = plan@;
        let begun: bool = sum.gt(&start);
        if begun && plan.len() == 0 {
            plan.push(SlicePiece::Start(i));
        }
        if sum.ge(&stop) {
            plan.push(SlicePiece::Stop(i));
            proof {
                assert(plan@ =~= before + plan_from(sums@, start, stop, i as int, before.len() == 0));
            }
            return plan;
        }
        if begun {
            plan.push(SlicePiece::Vertex(i + 1));
            proof {
                assert(plan@ + plan_from(sums@, start, stop, i + 1, false) =~= before + plan_from(
                    sums@,
                    start,
                    stop,
                    i as int,
                    before.len() == 0,
                ));
            }
        }
        i = i + 1;
    }
    proof {
        assert(plan@ + Seq::<SlicePiece>::empty() =~= plan@);
    }
    plan
}

} // verus!
