//! The exact part of a cheap ruler.
//!
//! A cheap ruler measures on a map, fast and to within a city's extent: it
//! treats a patch of the ellipsoid as a plane, scaled by factors that depend on
//! the latitude. Its arithmetic is done on binary64 numbers and is not done
//! here. Here is everything else: the units and their factors, the rows of map
//! tiles, the order of the numbers, and every choice that a measurement
//! involves, each with its proof.
//!
//! Numbers come in by their encodings ([`Scalar`]). Where a measurement takes
//! arithmetic before a choice can be made, the caller does the arithmetic and
//! hands over what it found:
//! - for the closest point of a line ([`point_on_line`], [`line_slice`]), what
//!   each segment offers ([`Candidate`]), found with the help of
//!   [`is_degenerate`] and [`segment_part`];
//! - for a walk along a line ([`along`], [`line_slice_along`]), the length of
//!   the line up to the end of each segment;
//! - for a bounding box ([`inside_bbox`]), the normalized differences in
//!   longitude.
pub mod distance_unit;
pub mod point;
pub mod point_on_line;
pub mod projection;
pub mod rect;
pub mod scalar;
pub mod slice;
pub mod tile;
pub mod walk;

pub use distance_unit::{DistanceUnit, Ratio};
pub use point::Point;
pub use point_on_line::PointOnLine;
pub use projection::{is_degenerate, point_on_line, segment_part, Candidate, SegmentPart};
pub use rect::{inside_bbox, Rect};
pub use scalar::Scalar;
pub use slice::{comes_after, line_slice, slice_between};
pub use tile::{tile_ordinate, Ordinate};
pub use walk::{along, line_slice_along, Along, SlicePiece};
