use vstd::prelude::*;

verus! {

/// A mapping from the points of one coordinate space to those of another.
/// It need not be defined everywhere, in either direction.
pub trait Projection {
    type InPoint;

    type OutPoint;

    /// Where the projection takes `p`, if it is defined there.
    spec fn project_spec(&self, p: Self::InPoint) -> Option<Self::OutPoint>;

    /// The point that the projection takes to `p`, if the reverse is
    /// defined there.
    spec fn unproject_spec(&self, p: Self::OutPoint) -> Option<Self::InPoint>;

    fn project(&self, p: &Self::InPoint) -> (r: Option<Self::OutPoint>)
        ensures
            r == self.project_spec(*p),
    ;

    fn unproject(&self, p: &Self::OutPoint) -> (r: Option<Self::InPoint>)
        ensures
            r == self.unproject_spec(*p),
    ;
}

/// Two projections one after the other. It is defined where the first is
/// defined and the second is defined on what the first gives.
pub struct ChainProjection<A, B> {
    pub first: A,
    pub second: B,
}

impl<A, B> ChainProjection<A, B> {
    pub fn new(first: A, second: B) -> (c: ChainProjection<A, B>)
        ensures
            c == (ChainProjection { first, second }),
    {
        ChainProjection { first, second }
    }
}

impl<A: Projection, B: Projection<InPoint = A::OutPoint>> Projection for ChainProjection<A, B> {
    type InPoint = A::InPoint;

    type OutPoint = B::OutPoint;

    open spec fn project_spec(&self, p: A::InPoint) -> Option<B::OutPoint> {
        match self.first.project_spec(p) {
            Some(q) => self.second.project_spec(q),
            None => None,
        }
    }

    open spec fn unproject_spec(&self, p: B::OutPoint) -> Option<A::InPoint> {
        match self.second.unproject_spec(p) {
            Some(q) => self.first.unproject_spec(q),
            None => None,
        }
    }

    fn project(&self, p: &A::InPoint) -> (r: Option<B::OutPoint>) {
        match self.first.project(p) {
            Some(q) => self.second.project(&q),
            None => None,
        }
    }

    fn unproject(&self, p: &B::OutPoint) -> (r: Option<A::InPoint>) {
        match self.second.unproject(p) {
            Some(q) => self.first.unproject(&q),
            None => None,
        }
    }
}

/// A projection taken in the reverse direction.
pub struct InvertedProjection<P> {
    pub inner: P,
}

impl<P> InvertedProjection<P> {
    pub fn new(inner: P) -> (i: InvertedProjection<P>)
        ensures
            i == (InvertedProjection { inner }),
    {
        InvertedProjection { inner }
    }
}

impl<P: Projection> Projection for InvertedProjection<P> {
    type InPoint = P::OutPoint;

    type OutPoint = P::InPoint;

    open spec fn project_spec(&self, p: P::OutPoint) -> Option<P::InPoint> {
        self.inner.unproject_spec(p)
    }

    open spec fn unproject_spec(&self, p: P::InPoint) -> Option<P::OutPoint> {
        self.inner.project_spec(p)
    }

    fn project(&self, p: &P::OutPoint) -> (r: Option<P::InPoint>) {
        self.inner.unproject(p)
    }

    fn unproject(&self, p: &P::InPoint) -> (r: Option<P::OutPoint>) {
        self.inner.project(p)
    }
}

/// Whether the projection can be reversed at `p`: the reverse is defined
/// there, and the projection takes what the reverse gives back to `p`.
pub open spec fn invertible_at<P: Projection>(projection: P, p: P::OutPoint) -> bool {
    match projection.unproject_spec(p) {
        Some(q) => projection.project_spec(q) == Some(p),
        None => false,
    }
}

/// A projection after its own reverse returns every point at which the
/// projection can be reversed.
pub proof fn lemma_chain_inverted_round_trip<P: Projection>(projection: P, p: P::OutPoint)
    requires
        invertible_at(projection, p),
    ensures
        (ChainProjection { first: InvertedProjection { inner: projection }, second: projection })
            .project_spec(p) == Some(p),
{
}

} // verus!
