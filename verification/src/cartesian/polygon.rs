use vstd::prelude::*;
use crate::cartesian::contour::ClosedContour;
use crate::cartesian::point::CartesianPoint2d;
use crate::cartesian::rect::{is_bounding_rect, lemma_merge_bounds, Rect};
use crate::polygon::contours_of;
use crate::projection::Projection;
use vstd::std_specs::convert::FromSpecImpl;

verus! {

/// A polygon: one outer ring, and the rings of the holes cut out of it.
///
/// The holes are expected to lie inside the outer ring and not to overlap
/// each other. Nothing here verifies that: it is left to whoever builds the
/// polygon.
#[derive(Clone, Debug, PartialEq, Eq)]
pub struct Polygon<P> {
    pub outer_contour: ClosedContour<P>,
    pub inner_contours: Vec<ClosedContour<P>>,
}

/// What a polygon is, as a mathematical value: the points of its outer
/// ring, and the points of each hole.
pub struct PolygonView<P> {
    pub outer: Seq<P>,
    pub inner: Seq<Seq<P>>,
}

impl<P> View for Polygon<P> {
    type V = PolygonView<P>;

    open spec fn view(&self) -> PolygonView<P> {
        PolygonView {
            outer: self.outer_contour.points@,
            inner: Seq::new(
                self.inner_contours@.len(),
                |j: int| self.inner_contours@[j].points@,
            ),
        }
    }
}

/// `to` holds, point for point, what `cast` may return for the points of
/// `from`.
pub open spec fn points_cast<P, T, F: Fn(&P) -> T>(from: Seq<P>, cast: F, to: Seq<T>) -> bool {
    &&& to.len() == from.len()
    &&& forall|i: int| 0 <= i < from.len() ==> call_ensures(cast, (&from[i],), #[trigger] to[i])
}

/// `cast` may be called on every point of `points`.
pub open spec fn points_castable<P, T, F: Fn(&P) -> T>(points: Seq<P>, cast: F) -> bool {
    forall|i: int| 0 <= i < points.len() ==> call_requires(cast, (&#[trigger] points[i],))
}

/// Every point of `points` through `cast`, in the same order.
fn cast_all<P, T, F: Fn(&P) -> T>(points: &Vec<P>, cast: &F) -> (r: Vec<T>)
    requires
        points_castable(points@, *cast),
    ensures
        points_cast(points@, *cast, r@),
{
    let mut out: Vec<T> = Vec::new();
    let mut k: usize = 0;
    while k < points.len()
        invariant
            k <= points@.len(),
            points_castable(points@, *cast),
            out@.len() == k,
            forall|i: int| 0 <= i < k ==> call_ensures(*cast, (&points@[i],), #[trigger] out@[i]),
        decreases points@.len() - k,
    {
        assert(call_requires(*cast, (&points@[k as int],)));
        out.push(cast(&points[k]));
        k += 1;
    }
    out
}

impl<P> Polygon<P> {
    pub fn new(outer_contour: ClosedContour<P>, inner_contours: Vec<ClosedContour<P>>) -> (p:
        Polygon<P>)
        ensures
            p.outer_contour == outer_contour,
            p.inner_contours == inner_contours,
    {
        Polygon { outer_contour, inner_contours }
    }

    /// All rings: the outer one first, then the holes in order.
    pub open spec fn contours(&self) -> Seq<ClosedContour<P>> {
        contours_of(self.outer_contour, self.inner_contours@)
    }

    /// `cast` may be called on every point of the polygon.
    pub open spec fn castable<T, F: Fn(&P) -> T>(&self, cast: F) -> bool {
        &&& points_castable(self.outer_contour.points@, cast)
        &&& forall|j: int|
            0 <= j < self.inner_contours@.len() ==> points_castable(
                (#[trigger] self.inner_contours@[j]).points@,
                cast,
            )
    }

    /// `to` has the structure of `self`, and holds, ring for ring and point
    /// for point, what `cast` may return for the points of `self`.
    pub open spec fn cast_to<T, F: Fn(&P) -> T>(&self, cast: F, to: Polygon<T>) -> bool {
        &&& points_cast(self.outer_contour.points@, cast, to.outer_contour.points@)
        &&& to.inner_contours@.len() == self.inner_contours@.len()
        &&& forall|j: int|
            0 <= j < self.inner_contours@.len() ==> points_cast(
                self.inner_contours@[j].points@,
                cast,
                (#[trigger] to.inner_contours@[j]).points@,
            )
    }

    /// All rings: the outer one first, then the holes in order.
    pub fn iter_contours(&self) -> (r: Vec<&ClosedContour<P>>)
        ensures
            r@.len() == self.contours().len(),
            forall|i: int| 0 <= i < r@.len() ==> *(#[trigger] r@[i]) == self.contours()[i],
    {
        let mut out: Vec<&ClosedContour<P>> = Vec::new();
        out.push(&self.outer_contour);
        let mut k: usize = 0;
        while k < self.inner_contours.len()
            invariant
                k <= self.inner_contours@.len(),
                out@.len() == k + 1,
                forall|i: int| 0 <= i < out@.len() ==> *(#[trigger] out@[i]) == self.contours()[i],
            decreases self.inner_contours@.len() - k,
        {
            out.push(&self.inner_contours[k]);
            k += 1;
        }
        out
    }

    /// A polygon of the same structure in which every point has gone
    /// through `cast`: the same number of holes in the same order, each ring
    /// with its points in the same order. `self` is left as it is.
    pub fn cast_points<T, F: Fn(&P) -> T>(&self, cast: F) -> (r: Polygon<T>)
        requires
            self.castable(cast),
        ensures
            self.cast_to(cast, r),
    {
        let outer: Vec<T> = cast_all(&self.outer_contour.points, &cast);
        let mut inner: Vec<ClosedContour<T>> = Vec::new();
        let mut k: usize = 0;
        while k < self.inner_contours.len()
            invariant
                k <= self.inner_contours@.len(),
                self.castable(cast),
                inner@.len() == k,
                forall|j: int|
                    0 <= j < k ==> points_cast(
                        self.inner_contours@[j].points@,
                        cast,
                        (#[trigger] inner@[j]).points@,
                    ),
            decreases self.inner_contours@.len() - k,
        {
            assert(points_castable(self.inner_contours@[k as int].points@, cast));
            let points: Vec<T> = cast_all(&self.inner_contours[k].points, &cast);
            inner.push(ClosedContour::new(points));
            k += 1;
        }
        Polygon { outer_contour: ClosedContour::new(outer), inner_contours: inner }
    }
}

/// A cast that returns every point as it is gives a polygon with the same
/// rings: the same holes in the same order, each ring with the same points
/// in the same order.
pub proof fn lemma_cast_identity<P, F: Fn(&P) -> P>(from: Polygon<P>, cast: F, to: Polygon<P>)
    requires
        from.cast_to(cast, to),
        forall|p: P, r: P| call_ensures(cast, (&p,), r) ==> r == p,
    ensures
        to@ == from@,
{
    assert(to@.outer =~= from@.outer);
    assert forall|j: int| 0 <= j < from@.inner.len() implies to@.inner[j] == from@.inner[j] by {
        assert(to.inner_contours@[j].points@ =~= from.inner_contours@[j].points@);
    }
    assert(to@.inner =~= from@.inner);
}

/// Whether `projection` is defined on every point of `points`.
pub open spec fn points_projectable<Proj: Projection>(
    points: Seq<Proj::InPoint>,
    projection: &Proj,
) -> bool {
    forall|i: int| 0 <= i < points.len() ==> (#[trigger] projection.project_spec(points[i])).is_some()
}

/// Each point of `points` where `projection` takes it. It says something
/// only where the projection is defined on every point.
pub open spec fn points_projected<Proj: Projection>(
    points: Seq<Proj::InPoint>,
    projection: &Proj,
) -> Seq<Proj::OutPoint> {
    Seq::new(points.len(), |i: int| projection.project_spec(points[i]).unwrap())
}

/// Every point of `points` through `projection`, in the same order, where
/// the projection is defined on all of them.
fn project_all<Proj: Projection>(points: &Vec<Proj::InPoint>, projection: &Proj) -> (r: Option<
    Vec<Proj::OutPoint>,
>)
    ensures
        r.is_some() <==> points_projectable(points@, projection),
        r.is_some() ==> r.unwrap()@ == points_projected(points@, projection),
{
    let mut out: Vec<Proj::OutPoint> = Vec::new();
    let mut k: usize = 0;
    while k < points.len()
        invariant
            k <= points@.len(),
            out@.len() == k,
            forall|i: int|
                0 <= i < k ==> projection.project_spec(points@[i]) == Some(#[trigger] out@[i]),
        decreases points@.len() - k,
    {
        match projection.project(&points[k]) {
            Some(q) => {
                out.push(q);
            },
            None => {
                assert(!(#[trigger] projection.project_spec(points@[k as int])).is_some());
                return None;
            },
        }
        k += 1;
    }
    assert forall|i: int| 0 <= i < points@.len() implies (#[trigger] projection.project_spec(
        points@[i],
    )).is_some() by {
        assert(projection.project_spec(points@[i]) == Some(out@[i]));
    }
    assert(out@ =~= points_projected(points@, projection));
    Some(out)
}

impl<P> Polygon<P> {
    /// Whether `projection` is defined on every point of the polygon.
    pub open spec fn projectable<Proj: Projection<InPoint = P>>(&self, projection: &Proj) -> bool {
        &&& points_projectable(self@.outer, projection)
        &&& forall|j: int|
            0 <= j < self@.inner.len() ==> points_projectable(#[trigger] self@.inner[j], projection)
    }

    /// The polygon where `projection` takes it, ring for ring and point for
    /// point. It says something only where the projection is defined on
    /// every point.
    pub open spec fn projected<Proj: Projection<InPoint = P>>(&self, projection: &Proj)
        -> PolygonView<Proj::OutPoint> {
        PolygonView {
            outer: points_projected(self@.outer, projection),
            inner: Seq::new(
                self@.inner.len(),
                |j: int| points_projected(self@.inner[j], projection),
            ),
        }
    }

    /// The polygon in the coordinate space that `projection` leads to: the
    /// same rings with every point projected. There is no result where the
    /// projection is undefined on any point of the polygon.
    pub fn project<Proj: Projection<InPoint = P>>(&self, projection: &Proj) -> (r: Option<
        Polygon<Proj::OutPoint>,
    >)
        ensures
            r.is_some() <==> self.projectable(projection),
            r.is_some() ==> r.unwrap()@ == self.projected(projection),
    {
        let outer: Vec<Proj::OutPoint> = match project_all(&self.outer_contour.points, projection) {
            Some(points) => points,
            None => {
                return None;
            },
        };
        let mut inner: Vec<ClosedContour<Proj::OutPoint>> = Vec::new();
        let mut k: usize = 0;
        while k < self.inner_contours.len()
            invariant
                k <= self.inner_contours@.len(),
                inner@.len() == k,
                forall|j: int|
                    0 <= j < k ==> points_projectable(#[trigger] self@.inner[j], projection),
                forall|j: int|
                    0 <= j < k ==> (#[trigger] inner@[j]).points@ == points_projected(
                        self@.inner[j],
                        projection,
                    ),
            decreases self.inner_contours@.len() - k,
        {
            assert(self@.inner[k as int] == self.inner_contours@[k as int].points@);
            match project_all(&self.inner_contours[k].points, projection) {
                Some(points) => {
                    inner.push(ClosedContour::new(points));
                },
                None => {
                    assert(!points_projectable(self@.inner[k as int], projection));
                    return None;
                },
            }
            k += 1;
        }
        let r: Polygon<Proj::OutPoint> = Polygon {
            outer_contour: ClosedContour::new(outer),
            inner_contours: inner,
        };
        assert(r@.inner =~= self.projected(projection).inner);
        Some(r)
    }
}

/// The points of several rings, one ring after the other.
pub open spec fn all_points<P>(contours: Seq<ClosedContour<P>>) -> Seq<P>
    decreases contours.len(),
{
    if contours.len() == 0 {
        Seq::empty()
    } else {
        all_points(contours.drop_last()) + contours.last().points@
    }
}

impl<P: CartesianPoint2d> Polygon<P> {
    /// The smallest rectangle that holds every ring of the polygon, and
    /// nothing for a polygon without a single point.
    pub fn bounding_rectangle(&self) -> (r: Option<Rect>)
        ensures
            all_points(self.contours()).len() == 0 <==> r.is_none(),
            r.is_some() ==> is_bounding_rect(r.unwrap(), all_points(self.contours())),
    {
        let contours: Vec<&ClosedContour<P>> = self.iter_contours();
        let ghost all: Seq<ClosedContour<P>> = self.contours();
        let mut acc: Option<Rect> = None;
        let mut k: usize = 0;
        assert(all.take(0) =~= Seq::<ClosedContour<P>>::empty());
        while k < contours.len()
            invariant
                k <= contours@.len(),
                contours@.len() == all.len(),
                forall|i: int| 0 <= i < contours@.len() ==> *(#[trigger] contours@[i]) == all[i],
                all_points(all.take(k as int)).len() == 0 <==> acc.is_none(),
                acc.is_some() ==> is_bounding_rect(acc.unwrap(), all_points(all.take(k as int))),
            decreases contours@.len() - k,
        {
            let ghost seen: Seq<P> = all_points(all.take(k as int));
            let ghost here: Seq<P> = all[k as int].points@;
            proof {
                assert(all.take(k + 1).drop_last() =~= all.take(k as int));
                assert(all.take(k + 1).last() == all[k as int]);
                assert(all_points(all.take(k + 1)) == seen + here);
            }
            match contours[k].bounding_rectangle() {
                None => {
                    assert(seen + here =~= seen);
                },
                Some(rect) => {
                    match acc {
                        None => {
                            assert(seen + here =~= here);
                            acc = Some(rect);
                        },
                        Some(so_far) => {
                            proof {
                                lemma_merge_bounds(so_far, seen, rect, here);
                            }
                            acc = Some(so_far.merge(rect));
                        },
                    }
                },
            }
            k += 1;
        }
        assert(all.take(k as int) =~= all);
        acc
    }
}

impl<P> crate::polygon::Polygon for Polygon<P> {
    type Contour = ClosedContour<P>;

    open spec fn outer_spec(&self) -> ClosedContour<P> {
        self.outer_contour
    }

    open spec fn inner_spec(&self) -> Seq<ClosedContour<P>> {
        self.inner_contours@
    }

    fn outer_contour(&self) -> (r: &ClosedContour<P>) {
        &self.outer_contour
    }

    fn inner_contours(&self) -> (r: Vec<&ClosedContour<P>>) {
        let mut out: Vec<&ClosedContour<P>> = Vec::new();
        let mut k: usize = 0;
        while k < self.inner_contours.len()
            invariant
                k <= self.inner_contours@.len(),
                out@.len() == k,
                forall|i: int| 0 <= i < k ==> *(#[trigger] out@[i]) == self.inner_contours@[i],
            decreases self.inner_contours@.len() - k,
        {
            out.push(&self.inner_contours[k]);
            k += 1;
        }
        out
    }
}

impl<P> From<ClosedContour<P>> for Polygon<P> {
    /// The polygon without holes that `value` bounds.
    fn from(value: ClosedContour<P>) -> (p: Self)
        ensures
            p.outer_contour == value,
            p.inner_contours@.len() == 0,
    {
        Polygon { outer_contour: value, inner_contours: Vec::new() }
    }
}

/// What `from` returns is stated on `from` itself: a vector is not
/// determined by its elements, so no single value can be named here.
impl<P> FromSpecImpl<ClosedContour<P>> for Polygon<P> {
    open spec fn obeys_from_spec() -> bool {
        false
    }

    open spec fn from_spec(value: ClosedContour<P>) -> Self {
        choose|p: Polygon<P>| p.outer_contour == value && p.inner_contours@.len() == 0
    }
}

} // verus!
