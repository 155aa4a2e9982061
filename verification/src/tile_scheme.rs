use vstd::prelude::*;
use vstd::arithmetic::power2::{
    lemma2_to64, lemma_pow2_pos, lemma_pow2_strictly_increases, lemma_pow2_unfold, pow2,
};
use crate::cartesian::point::Point2d;
use crate::cartesian::rect::Rect;

verus! {

/// The address of a tile: its level of detail `z`, and its column `x` and
/// row `y` at that level. Rows are counted downwards from the scheme's origin.
#[derive(Clone, Copy, Debug, PartialEq, Eq, Structural)]
pub struct TileIndex {
    pub x: i32,
    pub y: i32,
    pub z: u32,
}

/// The widest a tile may be on the ground, in map units.
pub const MAX_TILE_SPAN: i64 = 0x4000_0000;

/// The farthest the origin may lie from zero on either axis, in map units.
pub const MAX_ORIGIN: i64 = 0x1000_0000_0000_0000;

/// What a tile scheme is, as a mathematical value.
pub struct TileSchemeView {
    /// The top left corner of tile (0, 0) at every level.
    pub origin: Point2d,
    /// The ground distance that one pixel covers, for each level from 0 up.
    pub resolutions: Seq<i64>,
    /// The width and height of a tile in pixels.
    pub tile_width: u32,
}

impl TileSchemeView {
    /// The configurations that make a tile scheme: a tile is at least one
    /// pixel wide, every resolution is positive, each level is strictly finer
    /// than the one before, and tiles and origin stay within the limits that
    /// keep every coordinate of every tile representable.
    pub open spec fn valid(self) -> bool {
        &&& self.tile_width >= 1
        &&& -MAX_ORIGIN <= self.origin.x <= MAX_ORIGIN
        &&& -MAX_ORIGIN <= self.origin.y <= MAX_ORIGIN
        &&& forall|i: int| 0 <= i < self.resolutions.len() ==> #[trigger] self.resolutions[i] >= 1
        &&& forall|i: int|
            0 <= i && i + 1 < self.resolutions.len() ==> #[trigger] self.resolutions[i]
                > self.resolutions[i + 1]
        &&& self.resolutions.len() > 0 ==> self.resolutions[0] * self.tile_width <= MAX_TILE_SPAN
    }

    /// Whether the scheme defines level `z`.
    pub open spec fn has_level(self, z: u32) -> bool {
        (z as int) < self.resolutions.len()
    }

    /// The ground distance that one tile of level `z` covers, on either axis.
    pub open spec fn tile_span(self, z: u32) -> int {
        self.resolutions[z as int] * self.tile_width
    }

    /// The ground that a tile covers, by its corners: smallest x, smallest
    /// y, largest x, largest y. Columns run to the right of the origin and
    /// rows run downwards from it.
    pub open spec fn bbox_corners(self, index: TileIndex) -> (int, int, int, int) {
        let span = self.tile_span(index.z);
        let x_min = self.origin.x + index.x * span;
        let y_max = self.origin.y - index.y * span;
        (x_min, y_max - span, x_min + span, y_max)
    }

    /// The ground that a tile covers.
    pub open spec fn bbox(self, index: TileIndex) -> Rect {
        let c = self.bbox_corners(index);
        Rect { x_min: c.0 as i64, y_min: c.1 as i64, x_max: c.2 as i64, y_max: c.3 as i64 }
    }
}

/// The farthest from zero that a corner of any tile of any scheme lies.
pub const MAX_CORNER: i64 = 0x3000_0000_4000_0000;

/// The corners of a rectangle as mathematical integers: smallest x, smallest
/// y, largest x, largest y.
pub open spec fn rect_corners(r: Rect) -> (int, int, int, int) {
    (r.x_min as int, r.y_min as int, r.x_max as int, r.y_max as int)
}

/// Levels are strictly finer the higher they are, not only from one to the
/// next.
pub proof fn lemma_resolutions_decrease(v: TileSchemeView, i: int, j: int)
    requires
        v.valid(),
        0 <= i < j < v.resolutions.len(),
    ensures
        v.resolutions[i] > v.resolutions[j],
    decreases j - i,
{
    if i + 1 < j {
        lemma_resolutions_decrease(v, i, j - 1);
        assert(v.resolutions[j - 1] > v.resolutions[j - 1 + 1]);
    } else {
        assert(v.resolutions[i] > v.resolutions[i + 1]);
    }
}

/// Every defined level has tiles between one unit and the widest span.
pub proof fn lemma_tile_span_bounds(v: TileSchemeView, z: u32)
    requires
        v.valid(),
        v.has_level(z),
    ensures
        1 <= v.tile_span(z) <= MAX_TILE_SPAN,
{
    let r = v.resolutions[z as int];
    let w = v.tile_width as int;
    let r0 = v.resolutions[0];
    if z > 0 {
        lemma_resolutions_decrease(v, 0, z as int);
    }
    assert(r * w <= r0 * w) by (nonlinear_arith)
        requires
            1 <= r <= r0,
            w >= 1,
    ;
    assert(r * w >= 1) by (nonlinear_arith)
        requires
            r >= 1,
            w >= 1,
    ;
}

/// The corners of every tile of a defined level are representable, and so
/// the tile's bounding box has them as its coordinates.
pub proof fn lemma_bbox_bounds(v: TileSchemeView, index: TileIndex)
    requires
        v.valid(),
        v.has_level(index.z),
    ensures
        rect_corners(v.bbox(index)) == v.bbox_corners(index),
        -MAX_CORNER <= v.bbox(index).x_min <= v.bbox(index).x_max <= MAX_CORNER,
        -MAX_CORNER <= v.bbox(index).y_min <= v.bbox(index).y_max <= MAX_CORNER,
{
    lemma_tile_span_bounds(v, index.z);
    let span = v.tile_span(index.z);
    assert(-0x8000_0000 * 0x4000_0000 <= index.x * span <= 0x8000_0000 * 0x4000_0000)
        by (nonlinear_arith)
        requires
            -0x8000_0000 <= index.x < 0x8000_0000,
            1 <= span <= 0x4000_0000,
    ;
    assert(-0x8000_0000 * 0x4000_0000 <= index.y * span <= 0x8000_0000 * 0x4000_0000)
        by (nonlinear_arith)
        requires
            -0x8000_0000 <= index.y < 0x8000_0000,
            1 <= span <= 0x4000_0000,
    ;
}

/// Resolution strictly decreases from each level to the next, and a tile's
/// bounding box is a square whose side is the level's resolution times the
/// tile width in pixels.
pub proof fn lemma_scheme_levels(v: TileSchemeView, index: TileIndex)
    requires
        v.valid(),
        v.has_level(index.z),
    ensures
        index.z + 1 < v.resolutions.len() ==> v.resolutions[index.z + 1]
            < v.resolutions[index.z as int],
        v.bbox(index).x_max - v.bbox(index).x_min == v.resolutions[index.z as int] * v.tile_width,
        v.bbox(index).y_max - v.bbox(index).y_min == v.resolutions[index.z as int] * v.tile_width,
{
    lemma_bbox_bounds(v, index);
    if index.z + 1 < v.resolutions.len() {
        lemma_resolutions_decrease(v, index.z as int, index.z + 1);
    }
}

/// A tiling of the map: for each level of detail a resolution, and a grid of
/// square tiles that starts at the origin.
#[derive(Debug)]
pub struct TileScheme {
    origin: Point2d,
    resolutions: Vec<i64>,
    tile_width: u32,
}

impl View for TileScheme {
    type V = TileSchemeView;

    closed spec fn view(&self) -> TileSchemeView {
        TileSchemeView {
            origin: self.origin,
            resolutions: self.resolutions@,
            tile_width: self.tile_width,
        }
    }
}

impl TileScheme {
    #[verifier::type_invariant]
    spec fn inv(&self) -> bool {
        self@.valid()
    }

    /// The scheme with the given origin, resolutions by level and tile width,
    /// where these make a valid configuration; nothing otherwise.
    pub fn new(origin: Point2d, resolutions: Vec<i64>, tile_width: u32) -> (r: Option<TileScheme>)
        ensures
            r.is_some() <==> (TileSchemeView { origin, resolutions: resolutions@, tile_width })
                .valid(),
            r.is_some() ==> r.unwrap()@ == (TileSchemeView {
                origin,
                resolutions: resolutions@,
                tile_width,
            }),
    {
        let ghost v = TileSchemeView { origin, resolutions: resolutions@, tile_width };
        if tile_width < 1 || origin.x < -MAX_ORIGIN || origin.x > MAX_ORIGIN || origin.y
            < -MAX_ORIGIN || origin.y > MAX_ORIGIN {
            return None;
        }
        let n: usize = resolutions.len();
        if n > 0 {
            let first: i64 = resolutions[0];
            if first < 1 || first > MAX_TILE_SPAN / (tile_width as i64) {
                assert(!v.valid()) by {
                    if first >= 1 {
                        assert(first * tile_width > MAX_TILE_SPAN) by (nonlinear_arith)
                            requires
                                first > (MAX_TILE_SPAN as int) / (tile_width as int),
                                tile_width >= 1,
                        ;
                    }
                }
                return None;
            }
            assert(first * tile_width <= MAX_TILE_SPAN) by (nonlinear_arith)
                requires
                    first <= (MAX_TILE_SPAN as int) / (tile_width as int),
                    tile_width >= 1,
            ;
        }
        let mut k: usize = 1;
        while k < n
            invariant
                v == (TileSchemeView { origin, resolutions: resolutions@, tile_width }),
                n == resolutions@.len(),
                1 <= k,
                n > 0 ==> k <= n,
                n > 0 ==> resolutions@[0] >= 1,
                forall|i: int| 0 <= i < k && i < n ==> #[trigger] resolutions@[i] >= 1,
                forall|i: int|
                    0 <= i && i + 1 < k ==> #[trigger] resolutions@[i] > resolutions@[i + 1],
            decreases n - k,
        {
            if resolutions[k] < 1 || resolutions[k - 1] <= resolutions[k] {
                assert(!v.valid()) by {
                    if v.resolutions[k as int] >= 1 {
                        assert(!(v.resolutions[k - 1] > v.resolutions[k - 1 + 1]));
                    }
                }
                return None;
            }
            k += 1;
        }
        assert(v.valid());
        Some(TileScheme { origin, resolutions, tile_width })
    }

    /// The usual tiling of the web: tiles of 256 pixels, a world that is one
    /// tile at level 0 and centred on zero, and a resolution that halves from
    /// each level to the next, down to one map unit per pixel at level 22.
    /// There is no such scheme with more than 23 levels.
    pub fn web(lods_count: u32) -> (r: Option<TileScheme>)
        ensures
            r.is_some() <==> lods_count <= 23,
            r.is_some() ==> r.unwrap()@.origin.x == -0x2000_0000 && r.unwrap()@.origin.y
                == 0x2000_0000,
            r.is_some() ==> r.unwrap()@.tile_width == 256,
            r.is_some() ==> r.unwrap()@.resolutions.len() == lods_count,
            r.is_some() ==> forall|z: int|
                0 <= z < lods_count ==> #[trigger] r.unwrap()@.resolutions[z] == pow2(
                    (22 - z) as nat,
                ),
    {
        if lods_count > 23 {
            return None;
        }
        let mut resolutions: Vec<i64> = Vec::new();
        let mut current: i64 = 0x40_0000;
        let mut k: u32 = 0;
        proof {
            lemma2_to64();
        }
        while k < lods_count
            invariant
                k <= lods_count <= 23,
                resolutions@.len() == k,
                k < 23 ==> current == pow2((22 - k) as nat),
                forall|z: int| 0 <= z < k ==> #[trigger] resolutions@[z] == pow2((22 - z) as nat),
            decreases lods_count - k,
        {
            resolutions.push(current);
            proof {
                if k < 22 {
                    lemma_pow2_unfold((22 - k) as nat);
                }
            }
            current = current / 2;
            k += 1;
        }
        let origin: Point2d = Point2d { x: -0x2000_0000, y: 0x2000_0000 };
        proof {
            let v = TileSchemeView { origin, resolutions: resolutions@, tile_width: 256 };
            assert forall|i: int| 0 <= i < v.resolutions.len() implies #[trigger] v.resolutions[i]
                >= 1 by {
                lemma_pow2_pos((22 - i) as nat);
            }
            assert forall|i: int| 0 <= i && i + 1 < v.resolutions.len() implies
                #[trigger] v.resolutions[i] > v.resolutions[i + 1] by {
                lemma_pow2_strictly_increases((22 - (i + 1)) as nat, (22 - i) as nat);
            }
            assert(v.valid());
        }
        Some(TileScheme { origin, resolutions, tile_width: 256 })
    }

    /// The width and height of a tile in pixels.
    pub fn tile_width(&self) -> (w: u32)
        ensures
            w == self@.tile_width,
    {
        self.tile_width
    }

    /// The top left corner of tile (0, 0).
    pub fn origin(&self) -> (p: Point2d)
        ensures
            p == self@.origin,
    {
        self.origin
    }

    /// How many levels of detail the scheme defines.
    pub fn lods_count(&self) -> (n: usize)
        ensures
            n == self@.resolutions.len(),
    {
        self.resolutions.len()
    }

    /// The ground distance that one pixel covers at level `z`, where the
    /// scheme defines that level.
    pub fn lod_resolution(&self, z: u32) -> (r: Option<i64>)
        ensures
            self@.valid(),
            r.is_some() <==> self@.has_level(z),
            r.is_some() ==> r.unwrap() == self@.resolutions[z as int],
    {
        proof {
            use_type_invariant(self);
        }
        if (z as usize) < self.resolutions.len() {
            Some(self.resolutions[z as usize])
        } else {
            None
        }
    }

    /// The ground distance that one tile covers at level `z`: the level's
    /// resolution times the tile width in pixels.
    pub fn tile_resolution(&self, z: u32) -> (r: Option<i64>)
        ensures
            self@.valid(),
            r.is_some() <==> self@.has_level(z),
            r.is_some() ==> r.unwrap() == self@.tile_span(z),
    {
        proof {
            use_type_invariant(self);
        }
        match self.lod_resolution(z) {
            None => None,
            Some(resolution) => {
                proof {
                    lemma_tile_span_bounds(self@, z);
                }
                Some(resolution * (self.tile_width as i64))
            },
        }
    }

    /// The ground that the tile at `index` covers, where the scheme defines
    /// the tile's level.
    pub fn tile_bbox(&self, index: TileIndex) -> (r: Option<Rect>)
        ensures
            self@.valid(),
            r.is_some() <==> self@.has_level(index.z),
            r.is_some() ==> r.unwrap() == self@.bbox(index),
    {
        match self.tile_resolution(index.z) {
            None => None,
            Some(span) => {
                proof {
                    lemma_tile_span_bounds(self@, index.z);
                    lemma_bbox_bounds(self@, index);
                    assert(-0x8000_0000 * 0x4000_0000 <= index.x * span <= 0x8000_0000
                        * 0x4000_0000) by (nonlinear_arith)
                        requires
                            -0x8000_0000 <= index.x < 0x8000_0000,
                            1 <= span <= 0x4000_0000,
                    ;
                    assert(-0x8000_0000 * 0x4000_0000 <= index.y * span <= 0x8000_0000
                        * 0x4000_0000) by (nonlinear_arith)
                        requires
                            -0x8000_0000 <= index.y < 0x8000_0000,
                            1 <= span <= 0x4000_0000,
                    ;
                }
                let x_min: i64 = self.origin.x + (index.x as i64) * span;
                let y_max: i64 = self.origin.y - (index.y as i64) * span;
                Some(Rect { x_min, y_min: y_max - span, x_max: x_min + span, y_max })
            },
        }
    }
}

} // verus!
