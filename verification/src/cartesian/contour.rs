use vstd::prelude::*;
use crate::cartesian::point::CartesianPoint2d;
use crate::cartesian::rect::{is_bounding_rect, Rect};
use crate::segment::{collect_segments, segment_pairs, segments_of, Segment};

verus! {

/// An ordered sequence of points, either open (a polyline) or closed
/// (a ring, whose last point is joined to its first).
#[derive(Clone, Debug, PartialEq, Eq)]
pub struct Contour<P> {
    pub points: Vec<P>,
    pub is_closed: bool,
}

/// A ring: its last point is joined to its first.
#[derive(Clone, Debug, PartialEq, Eq)]
pub struct ClosedContour<P> {
    pub points: Vec<P>,
}

/// What a contour is, as a mathematical value.
pub struct ContourView<P> {
    pub points: Seq<P>,
    pub is_closed: bool,
}

impl<P> View for Contour<P> {
    type V = ContourView<P>;

    open spec fn view(&self) -> ContourView<P> {
        ContourView { points: self.points@, is_closed: self.is_closed }
    }
}

impl<P> View for ClosedContour<P> {
    type V = Seq<P>;

    open spec fn view(&self) -> Seq<P> {
        self.points@
    }
}

impl<P> Contour<P> {
    pub fn new(points: Vec<P>, is_closed: bool) -> (c: Contour<P>)
        ensures
            c.points == points,
            c.is_closed == is_closed,
    {
        Contour { points, is_closed }
    }

    /// A polyline over `points`.
    pub fn open(points: Vec<P>) -> (c: Contour<P>)
        ensures
            c.points == points,
            !c.is_closed,
    {
        Contour { points, is_closed: false }
    }

    /// A ring over `points`.
    pub fn closed(points: Vec<P>) -> (c: Contour<P>)
        ensures
            c.points == points,
            c.is_closed,
    {
        Contour { points, is_closed: true }
    }

    pub fn is_closed(&self) -> (b: bool)
        ensures
            b == self.is_closed,
    {
        self.is_closed
    }

    /// The same points as a ring, where the contour is closed.
    pub fn into_closed(self) -> (r: Option<ClosedContour<P>>)
        ensures
            self.is_closed <==> r.is_some(),
            r.is_some() ==> r.unwrap().points == self.points,
    {
        if self.is_closed {
            Some(ClosedContour { points: self.points })
        } else {
            None
        }
    }

    /// The segments of the contour, in order.
    pub fn iter_segments(&self) -> (r: Vec<Segment<'_, P>>)
        ensures
            segment_pairs(r@) == segments_of(self.points@, self.is_closed),
    {
        collect_segments(&self.points, self.is_closed)
    }
}

impl<P: CartesianPoint2d> Contour<P> {
    /// The smallest rectangle that holds the contour, and nothing for a
    /// contour without points.
    pub fn bounding_rectangle(&self) -> (r: Option<Rect>)
        ensures
            self.points@.len() == 0 <==> r.is_none(),
            r.is_some() ==> is_bounding_rect(r.unwrap(), self.points@),
    {
        Rect::from_points(&self.points)
    }
}

impl<P> ClosedContour<P> {
    pub fn new(points: Vec<P>) -> (c: ClosedContour<P>)
        ensures
            c.points == points,
    {
        ClosedContour { points }
    }

    /// The segments of the ring, in order; the last returns to the first
    /// point.
    pub fn iter_segments(&self) -> (r: Vec<Segment<'_, P>>)
        ensures
            segment_pairs(r@) == segments_of(self.points@, true),
    {
        collect_segments(&self.points, true)
    }
}

impl<P: CartesianPoint2d> ClosedContour<P> {
    /// The smallest rectangle that holds the ring, and nothing for a ring
    /// without points.
    pub fn bounding_rectangle(&self) -> (r: Option<Rect>)
        ensures
            self.points@.len() == 0 <==> r.is_none(),
            r.is_some() ==> is_bounding_rect(r.unwrap(), self.points@),
    {
        Rect::from_points(&self.points)
    }
}

impl<P> crate::contour::Contour for Contour<P> {
    type Point = P;

    open spec fn points_spec(&self) -> Seq<P> {
        self.points@
    }

    open spec fn closed_spec(&self) -> bool {
        self.is_closed
    }

    fn is_closed(&self) -> (b: bool) {
        self.is_closed
    }

    fn iter_segments(&self) -> (r: Vec<Segment<'_, P>>) {
        collect_segments(&self.points, self.is_closed)
    }
}

impl<P> crate::contour::Contour for ClosedContour<P> {
    type Point = P;

    open spec fn points_spec(&self) -> Seq<P> {
        self.points@
    }

    open spec fn closed_spec(&self) -> bool {
        true
    }

    fn is_closed(&self) -> (b: bool) {
        true
    }

    fn iter_segments(&self) -> (r: Vec<Segment<'_, P>>) {
        collect_segments(&self.points, true)
    }
}

} // verus!
