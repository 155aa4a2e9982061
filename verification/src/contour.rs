use vstd::prelude::*;
use crate::segment::{segment_pairs, segments_of, Segment};

verus! {

/// An ordered sequence of points, open or closed.
pub trait Contour {
    type Point;

    /// The points of the contour, in order.
    spec fn points_spec(&self) -> Seq<Self::Point>;

    /// Whether the last point is joined to the first.
    spec fn closed_spec(&self) -> bool;

    fn is_closed(&self) -> (b: bool)
        ensures
            b == self.closed_spec(),
    ;

    /// The segments of the contour, in order. In a closed contour the last
    /// segment returns to the first point.
    fn iter_segments(&self) -> (r: Vec<Segment<'_, Self::Point>>)
        ensures
            segment_pairs(r@) == segments_of(self.points_spec(), self.closed_spec()),
    ;
}

} // verus!
