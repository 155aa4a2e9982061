use vstd::prelude::*;
use crate::cartesian::point::CartesianPoint2d;

verus! {

/// An axis-aligned rectangle, given by its smallest and largest coordinate
/// on each axis.
#[derive(Clone, Copy, Debug, PartialEq, Eq, Structural)]
pub struct Rect {
    pub x_min: i64,
    pub y_min: i64,
    pub x_max: i64,
    pub y_max: i64,
}

/// `r` is the smallest rectangle that holds every point of `points`:
/// it holds them all, and each of its four sides touches one of them.
pub open spec fn is_bounding_rect<P: CartesianPoint2d>(r: Rect, points: Seq<P>) -> bool {
    &&& forall|i: int|
        0 <= i < points.len() ==> r.x_min <= (#[trigger] points[i]).x_spec() <= r.x_max
            && r.y_min <= points[i].y_spec() <= r.y_max
    &&& exists|i: int| 0 <= i < points.len() && (#[trigger] points[i]).x_spec() == r.x_min
    &&& exists|i: int| 0 <= i < points.len() && (#[trigger] points[i]).x_spec() == r.x_max
    &&& exists|i: int| 0 <= i < points.len() && (#[trigger] points[i]).y_spec() == r.y_min
    &&& exists|i: int| 0 <= i < points.len() && (#[trigger] points[i]).y_spec() == r.y_max
}

/// The union of the smallest rectangles round two sets of points is the
/// smallest rectangle round both sets together.
pub proof fn lemma_merge_bounds<P: CartesianPoint2d>(a: Rect, pa: Seq<P>, b: Rect, pb: Seq<P>)
    requires
        is_bounding_rect(a, pa),
        is_bounding_rect(b, pb),
    ensures
        is_bounding_rect(a.merge_spec(b), pa + pb),
{
    let m = a.merge_spec(b);
    let all = pa + pb;
    let n = pa.len() as int;
    assert forall|i: int| 0 <= i < all.len() implies m.x_min <= (#[trigger] all[i]).x_spec()
        <= m.x_max && m.y_min <= all[i].y_spec() <= m.y_max by {
        if i < n {
            assert(all[i] == pa[i]);
        } else {
            assert(all[i] == pb[i - n]);
        }
    }
    let ax0 = choose|i: int| 0 <= i < pa.len() && (#[trigger] pa[i]).x_spec() == a.x_min;
    let ax1 = choose|i: int| 0 <= i < pa.len() && (#[trigger] pa[i]).x_spec() == a.x_max;
    let ay0 = choose|i: int| 0 <= i < pa.len() && (#[trigger] pa[i]).y_spec() == a.y_min;
    let ay1 = choose|i: int| 0 <= i < pa.len() && (#[trigger] pa[i]).y_spec() == a.y_max;
    let bx0 = choose|i: int| 0 <= i < pb.len() && (#[trigger] pb[i]).x_spec() == b.x_min;
    let bx1 = choose|i: int| 0 <= i < pb.len() && (#[trigger] pb[i]).x_spec() == b.x_max;
    let by0 = choose|i: int| 0 <= i < pb.len() && (#[trigger] pb[i]).y_spec() == b.y_min;
    let by1 = choose|i: int| 0 <= i < pb.len() && (#[trigger] pb[i]).y_spec() == b.y_max;
    let wx0 = if a.x_min <= b.x_min { ax0 } else { n + bx0 };
    let wx1 = if a.x_max >= b.x_max { ax1 } else { n + bx1 };
    let wy0 = if a.y_min <= b.y_min { ay0 } else { n + by0 };
    let wy1 = if a.y_max >= b.y_max { ay1 } else { n + by1 };
    assert(all[ax0] == pa[ax0] && all[n + bx0] == pb[bx0]);
    assert(all[ax1] == pa[ax1] && all[n + bx1] == pb[bx1]);
    assert(all[ay0] == pa[ay0] && all[n + by0] == pb[by0]);
    assert(all[ay1] == pa[ay1] && all[n + by1] == pb[by1]);
    assert(0 <= wx0 < all.len() && all[wx0].x_spec() == m.x_min);
    assert(0 <= wx1 < all.len() && all[wx1].x_spec() == m.x_max);
    assert(0 <= wy0 < all.len() && all[wy0].y_spec() == m.y_min);
    assert(0 <= wy1 < all.len() && all[wy1].y_spec() == m.y_max);
}

impl Rect {
    pub fn new(x_min: i64, y_min: i64, x_max: i64, y_max: i64) -> (r: Rect)
        ensures
            r == (Rect { x_min, y_min, x_max, y_max }),
    {
        Rect { x_min, y_min, x_max, y_max }
    }

    /// The rectangle that holds exactly one point.
    pub fn from_point<P: CartesianPoint2d>(p: &P) -> (r: Rect)
        ensures
            r.x_min == p.x_spec(),
            r.x_max == p.x_spec(),
            r.y_min == p.y_spec(),
            r.y_max == p.y_spec(),
    {
        let x: i64 = p.x();
        let y: i64 = p.y();
        Rect { x_min: x, y_min: y, x_max: x, y_max: y }
    }

    pub fn x_min(&self) -> (v: i64)
        ensures
            v == self.x_min,
    {
        self.x_min
    }

    pub fn y_min(&self) -> (v: i64)
        ensures
            v == self.y_min,
    {
        self.y_min
    }

    pub fn x_max(&self) -> (v: i64)
        ensures
            v == self.x_max,
    {
        self.x_max
    }

    pub fn y_max(&self) -> (v: i64)
        ensures
            v == self.y_max,
    {
        self.y_max
    }

    /// The union of two rectangles, as a mathematical value.
    pub open spec fn merge_spec(self, other: Rect) -> Rect {
        Rect {
            x_min: if self.x_min <= other.x_min { self.x_min } else { other.x_min },
            y_min: if self.y_min <= other.y_min { self.y_min } else { other.y_min },
            x_max: if self.x_max >= other.x_max { self.x_max } else { other.x_max },
            y_max: if self.y_max >= other.y_max { self.y_max } else { other.y_max },
        }
    }

    /// The smallest rectangle that holds both `self` and `other`.
    pub fn merge(&self, other: Rect) -> (r: Rect)
        ensures
            r == self.merge_spec(other),
    {
        Rect {
            x_min: if self.x_min <= other.x_min { self.x_min } else { other.x_min },
            y_min: if self.y_min <= other.y_min { self.y_min } else { other.y_min },
            x_max: if self.x_max >= other.x_max { self.x_max } else { other.x_max },
            y_max: if self.y_max >= other.y_max { self.y_max } else { other.y_max },
        }
    }

    /// The smallest rectangle that holds every point of `points`, and
    /// nothing where there is no point.
    pub fn from_points<P: CartesianPoint2d>(points: &Vec<P>) -> (r: Option<Rect>)
        ensures
            points@.len() == 0 <==> r.is_none(),
            r.is_some() ==> is_bounding_rect(r.unwrap(), points@),
    {
        if points.len() == 0 {
            return None;
        }
        let mut acc: Rect = Rect::from_point(&points[0]);
        let ghost mut ix_min: int = 0;
        let ghost mut ix_max: int = 0;
        let ghost mut iy_min: int = 0;
        let ghost mut iy_max: int = 0;
        let mut k: usize = 1;
        while k < points.len()
            invariant
                1 <= k <= points.len(),
                0 <= ix_min < k && points@[ix_min].x_spec() == acc.x_min,
                0 <= ix_max < k && points@[ix_max].x_spec() == acc.x_max,
                0 <= iy_min < k && points@[iy_min].y_spec() == acc.y_min,
                0 <= iy_max < k && points@[iy_max].y_spec() == acc.y_max,
                forall|i: int|
                    0 <= i < k ==> acc.x_min <= (#[trigger] points@[i]).x_spec() <= acc.x_max
                        && acc.y_min <= points@[i].y_spec() <= acc.y_max,
            decreases points.len() - k,
        {
            let x: i64 = points[k].x();
            let y: i64 = points[k].y();
            if x < acc.x_min {
                acc.x_min = x;
                proof {
                    ix_min = k as int;
                }
            }
            if x > acc.x_max {
                acc.x_max = x;
                proof {
                    ix_max = k as int;
                }
            }
            if y < acc.y_min {
                acc.y_min = y;
                proof {
                    iy_min = k as int;
                }
            }
            if y > acc.y_max {
                acc.y_max = y;
                proof {
                    iy_max = k as int;
                }
            }
            k += 1;
        }
        Some(acc)
    }
}

} // verus!
