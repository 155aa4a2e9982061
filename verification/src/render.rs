use vstd::prelude::*;
use crate::cartesian::contour::{Contour, ContourView};
use crate::cartesian::point::Point3d;
use crate::cartesian::polygon::{Polygon, PolygonView};

verus! {

/// A colour with its opacity.
#[derive(Clone, Copy, Debug, PartialEq, Eq, Structural)]
pub struct Color {
    pub r: u8,
    pub g: u8,
    pub b: u8,
    pub a: u8,
}

impl Color {
    pub fn rgba(r: u8, g: u8, b: u8, a: u8) -> (c: Color)
        ensures
            c == (Color { r, g, b, a }),
    {
        Color { r, g, b, a }
    }
}

/// How the ends of a line are drawn.
#[derive(Clone, Copy, Debug, PartialEq, Eq, Structural)]
pub enum LineCap {
    Round,
    Butt,
}

/// How a point is painted.
#[derive(Clone, Copy, Debug, PartialEq, Eq, Structural)]
pub struct PointPaint {
    pub color: Color,
    pub size: u32,
}

/// How a line is painted.
#[derive(Clone, Copy, Debug, PartialEq, Eq, Structural)]
pub struct LinePaint {
    pub color: Color,
    pub width: u32,
    pub offset: i64,
    pub line_cap: LineCap,
}

/// How a polygon is painted.
#[derive(Clone, Copy, Debug, PartialEq, Eq, Structural)]
pub struct PolygonPaint {
    pub color: Color,
}

/// The paint of a primitive, of one of the three kinds.
#[derive(Clone, Copy, Debug, PartialEq, Eq, Structural)]
pub enum Paint {
    Point(PointPaint),
    Line(LinePaint),
    Polygon(PolygonPaint),
}

impl Paint {
    /// Whether two paints are of the same kind.
    pub open spec fn same_kind(self, other: Paint) -> bool {
        match (self, other) {
            (Paint::Point(_), Paint::Point(_)) => true,
            (Paint::Line(_), Paint::Line(_)) => true,
            (Paint::Polygon(_), Paint::Polygon(_)) => true,
            _ => false,
        }
    }

    /// Whether two paints are of the same kind.
    pub fn is_same_kind(&self, other: &Paint) -> (b: bool)
        ensures
            b == self.same_kind(*other),
    {
        match (self, other) {
            (Paint::Point(_), Paint::Point(_)) => true,
            (Paint::Line(_), Paint::Line(_)) => true,
            (Paint::Polygon(_), Paint::Polygon(_)) => true,
            _ => false,
        }
    }
}

/// The name under which a bundle knows one of its primitives: the
/// primitive's position in the bundle.
#[derive(Clone, Copy, Debug, PartialEq, Eq, Structural)]
pub struct PrimitiveId(pub usize);

/// The shape of a primitive.
#[derive(Clone, Debug, PartialEq, Eq)]
pub enum Geometry {
    Point(Point3d),
    Line(Contour<Point3d>),
    Polygon(Polygon<Point3d>),
}

/// The shape of a primitive, as a mathematical value.
pub enum GeometryView {
    Point(Point3d),
    Line(ContourView<Point3d>),
    Polygon(PolygonView<Point3d>),
}

impl View for Geometry {
    type V = GeometryView;

    open spec fn view(&self) -> GeometryView {
        match self {
            Geometry::Point(p) => GeometryView::Point(*p),
            Geometry::Line(c) => GeometryView::Line(c@),
            Geometry::Polygon(p) => GeometryView::Polygon(p@),
        }
    }
}

/// One drawable unit: a shape, its paint, and the resolution from which on
/// it is drawn.
#[derive(Clone, Debug, PartialEq, Eq)]
pub struct Primitive {
    pub geometry: Geometry,
    pub paint: Paint,
    pub min_resolution: i64,
}

/// One drawable unit, as a mathematical value.
pub struct PrimitiveView {
    pub geometry: GeometryView,
    pub paint: Paint,
    pub min_resolution: i64,
}

impl View for Primitive {
    type V = PrimitiveView;

    open spec fn view(&self) -> PrimitiveView {
        PrimitiveView {
            geometry: self.geometry@,
            paint: self.paint,
            min_resolution: self.min_resolution,
        }
    }
}

/// What a bundle holds, as a mathematical value.
pub struct RenderBundleView {
    /// The primitives in the order in which they are painted. The
    /// identifier of a primitive is its position here.
    pub primitives: Seq<PrimitiveView>,
    /// The region outside of which nothing is drawn, if one is set.
    pub clip_area: Option<PolygonView<Point3d>>,
}

/// The primitives after `ids` were repainted with `paint`: a primitive that
/// `ids` names, and whose paint is of the kind of `paint`, has the new
/// paint; every other primitive is as before. Shapes, resolutions and order
/// stay.
pub open spec fn repainted(before: Seq<PrimitiveView>, ids: Seq<PrimitiveId>, paint: Paint) -> Seq<
    PrimitiveView,
> {
    Seq::new(
        before.len(),
        |i: int|
            if ids.contains(PrimitiveId(i as usize)) && before[i].paint.same_kind(paint) {
                PrimitiveView { paint, ..before[i] }
            } else {
                before[i]
            },
    )
}

/// Gives primitive `i` a new paint and leaves everything else as it is.
fn repaint(primitives: &mut Vec<Primitive>, i: usize, paint: Paint)
    requires
        i < old(primitives)@.len(),
    ensures
        final(primitives)@.len() == old(primitives)@.len(),
        final(primitives)@[i as int]@ == (PrimitiveView { paint, ..old(primitives)@[i as int]@ }),
        forall|j: int|
            0 <= j < old(primitives)@.len() && j != i ==> final(primitives)@[j] == old(
                primitives,
            )@[j],
{
    primitives[i].paint = paint;
}

/// An append-only list of primitives for a renderer to draw, in paint
/// order. A primitive can later be repainted in place by its identifier.
#[derive(Debug)]
pub struct RenderBundle {
    primitives: Vec<Primitive>,
    clip_area: Option<Polygon<Point3d>>,
}

impl View for RenderBundle {
    type V = RenderBundleView;

    closed spec fn view(&self) -> RenderBundleView {
        RenderBundleView {
            primitives: Seq::new(self.primitives@.len(), |i: int| self.primitives@[i]@),
            clip_area: match self.clip_area {
                Some(p) => Some(p@),
                None => None,
            },
        }
    }
}

impl RenderBundle {
    /// A bundle without primitives and without a clip region.
    pub fn new() -> (b: RenderBundle)
        ensures
            b@.primitives.len() == 0,
            b@.clip_area.is_none(),
    {
        RenderBundle { primitives: Vec::new(), clip_area: None }
    }

    /// How many primitives the bundle holds.
    pub fn len(&self) -> (n: usize)
        ensures
            n == self@.primitives.len(),
    {
        self.primitives.len()
    }

    /// The primitive `id`, where the bundle holds it.
    pub fn get(&self, id: PrimitiveId) -> (r: Option<&Primitive>)
        ensures
            r.is_some() <==> id.0 < self@.primitives.len(),
            r.is_some() ==> r.unwrap()@ == self@.primitives[id.0 as int],
    {
        if id.0 < self.primitives.len() {
            Some(&self.primitives[id.0])
        } else {
            None
        }
    }

    /// The region outside of which nothing is drawn, if one is set.
    pub fn clip(&self) -> (r: Option<&Polygon<Point3d>>)
        ensures
            r.is_some() <==> self@.clip_area.is_some(),
            r.is_some() ==> r.unwrap()@ == self@.clip_area.unwrap(),
    {
        match &self.clip_area {
            Some(p) => Some(p),
            None => None,
        }
    }

    /// Sets the region outside of which nothing is drawn. The primitives
    /// stay as they are.
    pub fn clip_area(&mut self, bounds: Polygon<Point3d>)
        ensures
            final(self)@.primitives == old(self)@.primitives,
            final(self)@.clip_area == Some(bounds@),
    {
        self.clip_area = Some(bounds);
        assert(final(self)@.primitives =~= old(self)@.primitives);
    }

    /// Appends one primitive and returns its identifier.
    fn add(&mut self, geometry: Geometry, paint: Paint, min_resolution: i64) -> (id: PrimitiveId)
        ensures
            id.0 == old(self)@.primitives.len(),
            final(self)@.primitives == old(self)@.primitives.push(
                PrimitiveView { geometry: geometry@, paint, min_resolution },
            ),
            final(self)@.clip_area == old(self)@.clip_area,
    {
        let id: PrimitiveId = PrimitiveId(self.primitives.len());
        self.primitives.push(Primitive { geometry, paint, min_resolution });
        assert(final(self)@.primitives =~= old(self)@.primitives.push(
            PrimitiveView { geometry: geometry@, paint, min_resolution },
        ));
        id
    }

    /// Appends a point and returns its identifier. What the bundle held
    /// before stays as it is.
    pub fn add_point(&mut self, point: Point3d, paint: PointPaint, min_resolution: i64) -> (id:
        PrimitiveId)
        ensures
            id.0 == old(self)@.primitives.len(),
            final(self)@.primitives == old(self)@.primitives.push(
                PrimitiveView {
                    geometry: GeometryView::Point(point),
                    paint: Paint::Point(paint),
                    min_resolution,
                },
            ),
            final(self)@.clip_area == old(self)@.clip_area,
    {
        self.add(Geometry::Point(point), Paint::Point(paint), min_resolution)
    }

    /// Appends a line and returns its identifier. What the bundle held
    /// before stays as it is.
    pub fn add_line(&mut self, line: Contour<Point3d>, paint: LinePaint, min_resolution: i64) -> (id:
        PrimitiveId)
        ensures
            id.0 == old(self)@.primitives.len(),
            final(self)@.primitives == old(self)@.primitives.push(
                PrimitiveView {
                    geometry: GeometryView::Line(line@),
                    paint: Paint::Line(paint),
                    min_resolution,
                },
            ),
            final(self)@.clip_area == old(self)@.clip_area,
    {
        self.add(Geometry::Line(line), Paint::Line(paint), min_resolution)
    }

    /// Appends a polygon and returns its identifier. What the bundle held
    /// before stays as it is.
    pub fn add_polygon(
        &mut self,
        polygon: Polygon<Point3d>,
        paint: PolygonPaint,
        min_resolution: i64,
    ) -> (id: PrimitiveId)
        ensures
            id.0 == old(self)@.primitives.len(),
            final(self)@.primitives == old(self)@.primitives.push(
                PrimitiveView {
                    geometry: GeometryView::Polygon(polygon@),
                    paint: Paint::Polygon(paint),
                    min_resolution,
                },
            ),
            final(self)@.clip_area == old(self)@.clip_area,
    {
        self.add(Geometry::Polygon(polygon), Paint::Polygon(paint), min_resolution)
    }

    /// Repaints the primitives that `ids` names with `paint`, in place. An
    /// identifier that the bundle does not hold, or whose primitive is of
    /// another kind than `paint`, changes nothing. Shapes, resolutions, order
    /// and clip region stay as they are.
    pub fn update(&mut self, ids: &Vec<PrimitiveId>, paint: Paint)
        ensures
            final(self)@.primitives == repainted(old(self)@.primitives, ids@, paint),
            final(self)@.clip_area == old(self)@.clip_area,
    {
        let mut k: usize = 0;
        let ghost before = self@.primitives;
        assert(ids@.take(0).len() == 0);
        assert(self@.primitives =~= repainted(before, ids@.take(0), paint));
        while k < ids.len()
            invariant
                k <= ids@.len(),
                before == old(self)@.primitives,
                self@.primitives == repainted(before, ids@.take(k as int), paint),
                self@.clip_area == old(self)@.clip_area,
            decreases ids@.len() - k,
        {
            let id: PrimitiveId = ids[k];
            let ghost shown = self@.primitives;
            let ghost held = self.primitives@;
            assert(shown.len() == before.len());
            assert(held.len() == shown.len());
            if id.0 < self.primitives.len() {
                if self.primitives[id.0].paint.is_same_kind(&paint) {
                    repaint(&mut self.primitives, id.0, paint);
                }
            }
            proof {
                let now = self@.primitives;
                let upto = ids@.take(k as int);
                let next = ids@.take(k + 1);
                assert(next =~= upto.push(id));
                assert(self.primitives@.len() == held.len());
                assert(now.len() == before.len());
                assert forall|i: int| 0 <= i < before.len() implies now[i] == repainted(
                    before,
                    next,
                    paint,
                )[i] by {
                    let pid = PrimitiveId(i as usize);
                    assert(shown[i] == repainted(before, upto, paint)[i]);
                    if next.contains(pid) {
                        let j = choose|j: int| 0 <= j < next.len() && next[j] == pid;
                        if j < upto.len() {
                            assert(upto[j] == pid);
                            assert(upto.contains(pid));
                        } else {
                            assert(pid == id);
                        }
                    }
                    if upto.contains(pid) {
                        let j = choose|j: int| 0 <= j < upto.len() && upto[j] == pid;
                        assert(next[j] == pid);
                    }
                    if pid == id {
                        assert(next[k as int] == pid);
                    }
                }
                assert(now =~= repainted(before, next, paint));
            }
            k += 1;
        }
        assert(ids@.take(k as int) =~= ids@);
    }
}

} // verus!
