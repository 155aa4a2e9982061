use vstd::prelude::*;

verus! {

/// One side of a contour: the two points that it joins, in order.
#[derive(Debug, PartialEq, Eq)]
pub struct Segment<'a, P>(pub &'a P, pub &'a P);

/// How many segments a contour of `len` points has.
pub open spec fn segment_count(len: nat, is_closed: bool) -> nat {
    if len == 0 {
        0
    } else if is_closed {
        len
    } else {
        (len - 1) as nat
    }
}

/// The segments of a contour over `points`, as pairs of points: segment `i`
/// joins point `i` to the next one, and in a closed contour the last
/// segment returns to the first point.
pub open spec fn segments_of<P>(points: Seq<P>, is_closed: bool) -> Seq<(P, P)> {
    Seq::new(
        segment_count(points.len(), is_closed),
        |i: int| (points[i], points[(i + 1) % (points.len() as int)]),
    )
}

/// The pairs of points that a list of segments joins.
pub open spec fn segment_pairs<P>(segments: Seq<Segment<'_, P>>) -> Seq<(P, P)> {
    Seq::new(segments.len(), |i: int| (*segments[i].0, *segments[i].1))
}

/// The segments of a contour over `points`, in order.
pub fn collect_segments<P>(points: &Vec<P>, is_closed: bool) -> (r: Vec<Segment<'_, P>>)
    ensures
        segment_pairs(r@) == segments_of(points@, is_closed),
{
    let n: usize = points.len();
    let mut out: Vec<Segment<'_, P>> = Vec::new();
    if n == 0 {
        assert(segment_pairs(out@) =~= segments_of(points@, is_closed));
        return out;
    }
    let mut k: usize = 0;
    while k + 1 < n
        invariant
            n == points@.len(),
            n > 0,
            k < n,
            out@.len() == k,
            forall|i: int|
                0 <= i < k ==> (*(#[trigger] out@[i]).0, *out@[i].1) == (
                    points@[i],
                    points@[(i + 1) % (n as int)],
                ),
        decreases n - k,
    {
        assert((k + 1) % (n as int) == k + 1) by {
            vstd::arithmetic::div_mod::lemma_small_mod((k + 1) as nat, n as nat);
        }
        out.push(Segment(&points[k], &points[k + 1]));
        k += 1;
    }
    if is_closed {
        assert((n as int) % (n as int) == 0) by {
            vstd::arithmetic::div_mod::lemma_mod_self_0(n as int);
        }
        out.push(Segment(&points[n - 1], &points[0]));
    }
    assert(segment_pairs(out@) =~= segments_of(points@, is_closed));
    out
}

} // verus!
