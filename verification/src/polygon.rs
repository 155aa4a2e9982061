use vstd::prelude::*;
use crate::contour::Contour;
use crate::segment::{segment_pairs, segments_of, Segment};

verus! {

/// The segments of several contours, one contour after the other.
pub open spec fn all_segments<C: Contour>(contours: Seq<C>) -> Seq<(C::Point, C::Point)>
    decreases contours.len(),
{
    if contours.len() == 0 {
        Seq::empty()
    } else {
        all_segments(contours.drop_last()) + segments_of(
            contours.last().points_spec(),
            contours.last().closed_spec(),
        )
    }
}

/// All contours of a polygon: the outer one first, then the inner ones in
/// order.
pub open spec fn contours_of<C>(outer: C, inner: Seq<C>) -> Seq<C> {
    Seq::<C>::empty().push(outer) + inner
}

/// A shape bounded by one outer contour, with any number of holes cut out
/// of it by inner contours.
pub trait Polygon {
    type Contour: Contour;

    /// The outer contour, as a mathematical value.
    spec fn outer_spec(&self) -> Self::Contour;

    /// The inner contours in order, as mathematical values.
    spec fn inner_spec(&self) -> Seq<Self::Contour>;

    fn outer_contour(&self) -> (r: &Self::Contour)
        ensures
            *r == self.outer_spec(),
    ;

    fn inner_contours(&self) -> (r: Vec<&Self::Contour>)
        ensures
            r@.len() == self.inner_spec().len(),
            forall|i: int| 0 <= i < r@.len() ==> *(#[trigger] r@[i]) == self.inner_spec()[i],
    ;

    /// All contours: the outer one first, then the inner ones in order.
    fn iter_contours(&self) -> (r: Vec<&Self::Contour>)
        ensures
            r@.len() == contours_of(self.outer_spec(), self.inner_spec()).len(),
            forall|i: int| 0 <= i < r@.len() ==> *(#[trigger] r@[i]) == contours_of(self.outer_spec(), self.inner_spec())[i],
    {
        let mut out: Vec<&Self::Contour> = Vec::new();
        out.push(self.outer_contour());
        let inner: Vec<&Self::Contour> = self.inner_contours();
        let mut k: usize = 0;
        while k < inner.len()
            invariant
                k <= inner@.len(),
                inner@.len() == self.inner_spec().len(),
                forall|i: int|
                    0 <= i < inner@.len() ==> *(#[trigger] inner@[i]) == self.inner_spec()[i],
                out@.len() == k + 1,
                forall|i: int|
                    0 <= i < out@.len() ==> *(#[trigger] out@[i]) == contours_of(self.outer_spec(), self.inner_spec())[i],
            decreases inner@.len() - k,
        {
            out.push(inner[k]);
            k += 1;
        }
        out
    }

    /// The segments of all contours: those of the outer contour first, then
    /// those of each inner contour in order.
    fn iter_segments(&self) -> (r: Vec<Segment<'_, <Self::Contour as Contour>::Point>>)
        ensures
            segment_pairs(r@) == all_segments(contours_of(self.outer_spec(), self.inner_spec())),
    {
        let contours: Vec<&Self::Contour> = self.iter_contours();
        let ghost all: Seq<Self::Contour> = contours_of(self.outer_spec(), self.inner_spec());
        let mut out: Vec<Segment<'_, <Self::Contour as Contour>::Point>> = Vec::new();
        let mut k: usize = 0;
        assert(all.take(0) =~= Seq::<Self::Contour>::empty());
        assert(segment_pairs(out@) =~= all_segments(all.take(0)));
        while k < contours.len()
            invariant
                k <= contours@.len(),
                contours@.len() == all.len(),
                forall|i: int| 0 <= i < contours@.len() ==> *(#[trigger] contours@[i]) == all[i],
                segment_pairs(out@) == all_segments(all.take(k as int)),
            decreases contours@.len() - k,
        {
            let mut part: Vec<Segment<'_, <Self::Contour as Contour>::Point>> =
                contours[k].iter_segments();
            let ghost before = out@;
            let ghost added = part@;
            out.append(&mut part);
            proof {
                assert(all.take(k + 1).drop_last() =~= all.take(k as int));
                assert(all.take(k + 1).last() == all[k as int]);
                assert(out@ =~= before + added);
                assert(segment_pairs(out@) =~= segment_pairs(before) + segment_pairs(added));
            }
            k += 1;
        }
        assert(all.take(k as int) =~= all);
        out
    }
}

} // verus!
