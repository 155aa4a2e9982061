use vstd::prelude::*;
use vstd::arithmetic::div_mod::{lemma_fundamental_div_mod, lemma_fundamental_div_mod_converse};
use crate::cartesian::point::Point3d;
use crate::cartesian::rect::Rect;
use crate::mvt::MvtPoint;
use crate::projection::{invertible_at, Projection};
use crate::vt_processor::{placement_fits, transform_spec, VtProcessor};

verus! {

/// The projection from the raster of one tile to the world: a tile's point
/// goes to where it lies in the world, at height zero. In reverse, a point
/// of the world at height zero goes to the tile's point that lies there, if
/// there is one.
#[derive(Clone, Copy, Debug, PartialEq, Eq, Structural)]
pub struct TileProjection {
    /// The ground that the tile covers.
    pub bbox: Rect,
    /// The length of the tile's side in map units.
    pub span: i64,
}

/// A number is a multiple of `d` exactly if its size is, and the quotient
/// of a negative multiple is the quotient of its size with the sign turned.
proof fn lemma_exact_division(v: int, d: int)
    requires
        d > 0,
        v < 0,
    ensures
        (v % d == 0) == ((-v) % d == 0),
        v % d == 0 ==> v / d == -((-v) / d),
{
    let m = -v;
    lemma_fundamental_div_mod(m, d);
    lemma_fundamental_div_mod(v, d);
    if m % d == 0 {
        let k = m / d;
        assert(v == (-k) * d + 0) by (nonlinear_arith)
            requires
                m == d * k + 0,
                v == -m,
        ;
        lemma_fundamental_div_mod_converse(v, d, -k, 0);
    }
    if v % d == 0 {
        let k = v / d;
        assert(m == (-k) * d + 0) by (nonlinear_arith)
            requires
                v == d * k + 0,
                m == -v,
        ;
        lemma_fundamental_div_mod_converse(m, d, -k, 0);
    }
}

/// How many steps of length `step` lead from zero to `v`, where `v` is a
/// whole number of steps away and the number fits in 32 bits.
fn whole_steps(v: i128, step: i64) -> (r: Option<i32>)
    requires
        step >= 1,
        -0x1_0000_0000_0000_0000 < v < 0x1_0000_0000_0000_0000,
    ensures
        r.is_some() <==> (v as int) % (step as int) == 0 && -0x8000_0000 <= (v as int) / (
        step as int) < 0x8000_0000,
        r.is_some() ==> r.unwrap() == (v as int) / (step as int),
{
    let d: u128 = step as u128;
    if v >= 0 {
        let m: u128 = v as u128;
        if m % d != 0 {
            return None;
        }
        let k: u128 = m / d;
        if k > 0x7fff_ffff {
            None
        } else {
            Some(k as i32)
        }
    } else {
        let m: u128 = (-v) as u128;
        proof {
            lemma_exact_division(v as int, step as int);
        }
        if m % d != 0 {
            return None;
        }
        let k: u128 = m / d;
        if k > 0x8000_0000 {
            None
        } else {
            Some((-(k as i64)) as i32)
        }
    }
}

impl TileProjection {
    pub fn new(bbox: Rect, span: i64) -> (p: TileProjection)
        ensures
            p == (TileProjection { bbox, span }),
    {
        TileProjection { bbox, span }
    }

    /// Whether the tile is one for which every point of its raster has
    /// representable world coordinates.
    fn fits(&self) -> (b: bool)
        ensures
            b == placement_fits(self.bbox, self.span),
    {
        1 <= self.span && self.span <= crate::tile_scheme::MAX_TILE_SPAN
            && -crate::tile_scheme::MAX_CORNER <= self.bbox.x_min && self.bbox.x_min
            <= crate::tile_scheme::MAX_CORNER && -crate::tile_scheme::MAX_CORNER
            <= self.bbox.y_max && self.bbox.y_max <= crate::tile_scheme::MAX_CORNER
    }
}

impl Projection for TileProjection {
    type InPoint = MvtPoint;

    type OutPoint = Point3d;

    open spec fn project_spec(&self, p: MvtPoint) -> Option<Point3d> {
        if placement_fits(self.bbox, self.span) {
            Some(transform_spec(p, self.bbox, self.span))
        } else {
            None
        }
    }

    open spec fn unproject_spec(&self, p: Point3d) -> Option<MvtPoint> {
        let right = p.x - self.bbox.x_min;
        let down = self.bbox.y_max - p.y;
        let span = self.span as int;
        if placement_fits(self.bbox, self.span) && p.z == 0 && right % span == 0 && down % span == 0
            && -0x8000_0000 <= right / span < 0x8000_0000 && -0x8000_0000 <= down / span
            < 0x8000_0000 {
            Some(MvtPoint { x: (right / span) as i32, y: (down / span) as i32 })
        } else {
            None
        }
    }

    fn project(&self, p: &MvtPoint) -> (r: Option<Point3d>) {
        if self.fits() {
            Some(VtProcessor::transform_point(p, self.bbox, self.span))
        } else {
            None
        }
    }

    fn unproject(&self, p: &Point3d) -> (r: Option<MvtPoint>) {
        if !self.fits() || p.z != 0 {
            return None;
        }
        let right: i128 = (p.x as i128) - (self.bbox.x_min as i128);
        let down: i128 = (self.bbox.y_max as i128) - (p.y as i128);
        match whole_steps(right, self.span) {
            None => None,
            Some(x) => match whole_steps(down, self.span) {
                None => None,
                Some(y) => Some(MvtPoint { x, y }),
            },
        }
    }
}

/// The projection of a tile can be reversed wherever its reverse is
/// defined: the two directions undo each other.
pub proof fn lemma_tile_projection_invertible(projection: TileProjection, p: Point3d)
    requires
        projection.unproject_spec(p).is_some(),
    ensures
        invertible_at(projection, p),
{
    let span = projection.span as int;
    let right = p.x - projection.bbox.x_min;
    let down = projection.bbox.y_max - p.y;
    lemma_fundamental_div_mod(right, span);
    lemma_fundamental_div_mod(down, span);
    let q = projection.unproject_spec(p).unwrap();
    assert(q.x * span == right) by (nonlinear_arith)
        requires
            right == span * (right / span) + 0,
            q.x == right / span,
    ;
    assert(q.y * span == down) by (nonlinear_arith)
        requires
            down == span * (down / span) + 0,
            q.y == down / span,
    ;
}

/// Every point of a tile's raster returns to itself through the world,
/// where the tile's projection is defined.
pub proof fn lemma_tile_projection_returns(projection: TileProjection, p: MvtPoint)
    requires
        placement_fits(projection.bbox, projection.span),
    ensures
        projection.project_spec(p).is_some(),
        projection.unproject_spec(projection.project_spec(p).unwrap()) == Some(p),
{
    let span = projection.span as int;
    assert(-0x8000_0000 * 0x4000_0000 <= p.x * span <= 0x8000_0000 * 0x4000_0000)
        by (nonlinear_arith)
        requires
            -0x8000_0000 <= p.x < 0x8000_0000,
            1 <= span <= 0x4000_0000,
    ;
    assert(-0x8000_0000 * 0x4000_0000 <= p.y * span <= 0x8000_0000 * 0x4000_0000)
        by (nonlinear_arith)
        requires
            -0x8000_0000 <= p.y < 0x8000_0000,
            1 <= span <= 0x4000_0000,
    ;
    let q = projection.project_spec(p).unwrap();
    let right = q.x - projection.bbox.x_min;
    let down = projection.bbox.y_max - q.y;
    assert(right == p.x * span + 0);
    assert(down == p.y * span + 0);
    lemma_fundamental_div_mod_converse(right, span, p.x as int, 0);
    lemma_fundamental_div_mod_converse(down, span, p.y as int, 0);
}

} // verus!
