use vstd::prelude::*;
use crate::cartesian::hit_test::{any_contains, any_polygon_contains};
use crate::cartesian::point::{CartesianPoint2d, Point3d};
use crate::cartesian::polygon::{lemma_cast_identity, Polygon};
use crate::projection::Projection;
use crate::render::{
    repainted, Color, GeometryView, Paint, PolygonPaint, PrimitiveId, PrimitiveView, RenderBundle,
    RenderBundleView,
};

verus! {

/// The opacity of a selected feature.
pub const SELECTED_ALPHA: u8 = 255;

/// The opacity of a feature that is not selected.
pub const UNSELECTED_ALPHA: u8 = 150;

/// A feature of a layer: its polygons, its colour, whether it is selected,
/// and the primitives that draw it.
#[derive(Clone, Debug, PartialEq, Eq)]
pub struct LayerFeature {
    pub polygons: Vec<Polygon<Point3d>>,
    pub color: Color,
    pub is_selected: bool,
    pub render_ids: Vec<PrimitiveId>,
}

/// The features of a layer, of which at most one is selected.
#[derive(Clone, Debug, PartialEq, Eq)]
pub struct FeatureLayer {
    pub features: Vec<LayerFeature>,
    pub selected: Option<usize>,
}

/// The paint of a feature: its colour, opaque where the feature is selected
/// and translucent where it is not.
pub open spec fn feature_paint(color: Color, is_selected: bool) -> Paint {
    Paint::Polygon(
        PolygonPaint {
            color: Color {
                a: if is_selected {
                    SELECTED_ALPHA
                } else {
                    UNSELECTED_ALPHA
                },
                ..color
            },
        },
    )
}

/// The primitives that draw a new feature: one for each of its polygons,
/// in order, in the paint of a feature that is not selected.
pub open spec fn new_primitives(
    polygons: Seq<Polygon<Point3d>>,
    color: Color,
    min_resolution: i64,
) -> Seq<PrimitiveView> {
    Seq::new(
        polygons.len(),
        |k: int|
            PrimitiveView {
                geometry: GeometryView::Polygon(polygons[k]@),
                paint: feature_paint(color, false),
                min_resolution,
            },
    )
}

/// The identifiers of `count` primitives appended to a bundle that holds
/// `held` primitives.
pub open spec fn new_ids(held: nat, count: nat) -> Seq<PrimitiveId> {
    Seq::new(count, |k: int| PrimitiveId((held + k) as usize))
}

/// The first feature from `from` on that the point lies inside of, if
/// there is one.
pub open spec fn first_feature_at(
    features: Seq<LayerFeature>,
    px: int,
    py: int,
    from: int,
) -> Option<usize>
    decreases features.len() - from,
{
    if from < 0 || from >= features.len() {
        None
    } else if any_contains(features[from].polygons@, px, py) {
        Some(from as usize)
    } else {
        first_feature_at(features, px, py, from + 1)
    }
}

/// What a pointer over `hit` does to a selection: the selection that
/// follows, and the features to draw anew. A pointer over the selected
/// feature changes nothing. Otherwise the feature under the pointer, if
/// there is one, becomes the selection and is drawn anew first, and the
/// feature that was selected, if there was one, is drawn anew after it.
pub open spec fn next_selection_spec(selected: Option<usize>, hit: Option<usize>) -> (
    Option<usize>,
    Seq<usize>,
) {
    match hit {
        Some(i) => if selected == Some(i) {
            (selected, Seq::empty())
        } else {
            match selected {
                Some(s) => (hit, seq![i, s]),
                None => (hit, seq![i]),
            }
        },
        None => match selected {
            Some(s) => (None, seq![s]),
            None => (None, Seq::empty()),
        },
    }
}

/// What a pointer over `hit` does to a selection: the selection that
/// follows, and the features to draw anew.
pub fn next_selection(selected: Option<usize>, hit: Option<usize>) -> (r: (
    Option<usize>,
    Vec<usize>,
))
    ensures
        r.0 == next_selection_spec(selected, hit).0,
        r.1@ == next_selection_spec(selected, hit).1,
{
    let mut to_update: Vec<usize> = Vec::new();
    match hit {
        Some(i) => {
            match selected {
                Some(s) => {
                    if s == i {
                        assert(to_update@ =~= next_selection_spec(selected, hit).1);
                        return (selected, to_update);
                    }
                    to_update.push(i);
                    to_update.push(s);
                },
                None => {
                    to_update.push(i);
                },
            }
        },
        None => {
            match selected {
                Some(s) => {
                    to_update.push(s);
                },
                None => {},
            }
        },
    }
    assert(to_update@ =~= next_selection_spec(selected, hit).1);
    (hit, to_update)
}

/// The primitives after the features that `indices` names were drawn anew,
/// one after the other: each one's primitives have the paint that the
/// feature's colour and selection give. An index that names no feature
/// changes nothing.
pub open spec fn restyled(
    before: Seq<PrimitiveView>,
    features: Seq<LayerFeature>,
    indices: Seq<usize>,
) -> Seq<PrimitiveView>
    decreases indices.len(),
{
    if indices.len() == 0 {
        before
    } else {
        let so_far = restyled(before, features, indices.drop_last());
        let i = indices.last() as int;
        if i < features.len() {
            repainted(
                so_far,
                features[i].render_ids@,
                feature_paint(features[i].color, features[i].is_selected),
            )
        } else {
            so_far
        }
    }
}

/// Whether feature `j` is selected after a pointer over `hit`, given the
/// selection and the feature's state before.
pub open spec fn selected_after(
    was: bool,
    j: int,
    selected: Option<usize>,
    hit: Option<usize>,
) -> bool {
    if hit == selected {
        was
    } else if hit == Some(j as usize) {
        true
    } else if selected == Some(j as usize) {
        false
    } else {
        was
    }
}

/// Whether primitive `p` is one of those that draw feature `i`.
pub open spec fn draws(features: Seq<LayerFeature>, i: usize, p: int) -> bool {
    i < features.len() && features[i as int].render_ids@.contains(PrimitiveId(p as usize))
}

/// Whether primitive `p` draws none of the features that `indices` names.
pub open spec fn belongs_to_none(features: Seq<LayerFeature>, indices: Seq<usize>, p: int) -> bool {
    forall|k: int| 0 <= k < indices.len() ==> !draws(features, #[trigger] indices[k], p)
}

/// Drawing features anew changes the paint of their primitives only:
/// the number of primitives, their shapes and their resolutions stay, and a
/// primitive that belongs to none of the features keeps its paint.
pub proof fn lemma_restyled_elsewhere(
    before: Seq<PrimitiveView>,
    features: Seq<LayerFeature>,
    indices: Seq<usize>,
    p: int,
)
    requires
        0 <= p < before.len(),
    ensures
        restyled(before, features, indices).len() == before.len(),
        restyled(before, features, indices)[p].geometry == before[p].geometry,
        restyled(before, features, indices)[p].min_resolution == before[p].min_resolution,
        belongs_to_none(features, indices, p) ==> restyled(before, features, indices)[p]
            == before[p],
    decreases indices.len(),
{
    if indices.len() > 0 {
        let rest = indices.drop_last();
        lemma_restyled_elsewhere(before, features, rest, p);
        if belongs_to_none(features, indices, p) {
            assert forall|k: int| 0 <= k < rest.len() implies !draws(
                features,
                #[trigger] rest[k],
                p,
            ) by {
                assert(rest[k] == indices[k]);
            }
            assert(!draws(features, indices[indices.len() - 1], p));
        }
    }
}

/// Sets the selection flag of feature `i` and leaves everything else as it
/// is.
fn mark(features: &mut Vec<LayerFeature>, i: usize, is_selected: bool)
    requires
        i < old(features)@.len(),
    ensures
        final(features)@.len() == old(features)@.len(),
        final(features)@[i as int] == (LayerFeature { is_selected, ..old(features)@[i as int] }),
        forall|j: int|
            0 <= j < old(features)@.len() && j != i ==> final(features)@[j] == old(features)@[j],
{
    features[i].is_selected = is_selected;
}

impl LayerFeature {
    /// Whether the point lies inside one of the polygons of the feature.
    pub fn contains_point<Q: CartesianPoint2d>(&self, point: &Q) -> (b: bool)
        ensures
            b == any_contains(self.polygons@, point.x_spec(), point.y_spec()),
    {
        any_polygon_contains(&self.polygons, point)
    }

    /// The paint of the feature: its colour, opaque where the feature is
    /// selected and translucent where it is not.
    pub fn paint(&self) -> (p: Paint)
        ensures
            p == feature_paint(self.color, self.is_selected),
    {
        let a: u8 = if self.is_selected {
            SELECTED_ALPHA
        } else {
            UNSELECTED_ALPHA
        };
        Paint::Polygon(
            PolygonPaint { color: Color { r: self.color.r, g: self.color.g, b: self.color.b, a } },
        )
    }
}

impl FeatureLayer {
    /// A layer without features.
    pub fn new() -> (layer: FeatureLayer)
        ensures
            layer.features@.len() == 0,
            layer.selected.is_none(),
    {
        FeatureLayer { features: Vec::new(), selected: None }
    }

    /// Adds a feature with the given polygons, and appends a copy of each
    /// of them to the bundle. The feature is not selected. Returns the index
    /// of the feature.
    pub fn add_feature(
        &mut self,
        polygons: Vec<Polygon<Point3d>>,
        color: Color,
        min_resolution: i64,
        bundle: &mut RenderBundle,
    ) -> (index: usize)
        ensures
            index == old(self).features@.len(),
            final(self).selected == old(self).selected,
            final(self).features@.len() == old(self).features@.len() + 1,
            forall|j: int|
                0 <= j < old(self).features@.len() ==> final(self).features@[j] == old(
                    self,
                ).features@[j],
            final(self).features@[index as int].polygons == polygons,
            final(self).features@[index as int].color == color,
            !final(self).features@[index as int].is_selected,
            final(self).features@[index as int].render_ids@ == new_ids(
                old(bundle)@.primitives.len(),
                polygons@.len(),
            ),
            final(bundle)@.primitives == old(bundle)@.primitives + new_primitives(
                polygons@,
                color,
                min_resolution,
            ),
            final(bundle)@.clip_area == old(bundle)@.clip_area,
    {
        let ghost added = new_primitives(polygons@, color, min_resolution);
        let ghost ids = new_ids(old(bundle)@.primitives.len(), polygons@.len());
        let paint: PolygonPaint = PolygonPaint {
            color: Color { r: color.r, g: color.g, b: color.b, a: UNSELECTED_ALPHA },
        };
        let mut render_ids: Vec<PrimitiveId> = Vec::new();
        let mut k: usize = 0;
        assert(bundle@.primitives =~= old(bundle)@.primitives + added.take(0));
        assert(render_ids@ =~= ids.take(0));
        while k < polygons.len()
            invariant
                k <= polygons@.len(),
                added == new_primitives(polygons@, color, min_resolution),
                ids == new_ids(old(bundle)@.primitives.len(), polygons@.len()),
                paint == (PolygonPaint {
                    color: Color { r: color.r, g: color.g, b: color.b, a: UNSELECTED_ALPHA },
                }),
                bundle@.primitives == old(bundle)@.primitives + added.take(k as int),
                render_ids@ == ids.take(k as int),
                bundle@.clip_area == old(bundle)@.clip_area,
            decreases polygons@.len() - k,
        {
            let same = |p: &Point3d| -> (r: Point3d)
                ensures
                    r == *p,
                { *p };
            let copy: Polygon<Point3d> = polygons[k].cast_points(same);
            proof {
                lemma_cast_identity(polygons@[k as int], same, copy);
            }
            let id: PrimitiveId = bundle.add_polygon(copy, paint, min_resolution);
            render_ids.push(id);
            proof {
                assert(added.take(k + 1) =~= added.take(k as int).push(added[k as int]));
                assert(ids.take(k + 1) =~= ids.take(k as int).push(ids[k as int]));
                assert(bundle@.primitives =~= old(bundle)@.primitives + added.take(k + 1));
            }
            k += 1;
        }
        assert(added.take(k as int) =~= added);
        assert(ids.take(k as int) =~= ids);
        let index: usize = self.features.len();
        self.features.push(LayerFeature { polygons, color, is_selected: false, render_ids });
        index
    }

    /// Draws the features that `indices` names anew, one after the other:
    /// the primitives of each get the paint that the feature's colour and
    /// selection give. Nothing else in the bundle changes.
    pub fn update_features(&self, indices: &Vec<usize>, bundle: &mut RenderBundle)
        ensures
            final(bundle)@.primitives == restyled(
                old(bundle)@.primitives,
                self.features@,
                indices@,
            ),
            final(bundle)@.clip_area == old(bundle)@.clip_area,
    {
        let mut k: usize = 0;
        assert(indices@.take(0) =~= Seq::<usize>::empty());
        while k < indices.len()
            invariant
                k <= indices@.len(),
                bundle@.primitives == restyled(
                    old(bundle)@.primitives,
                    self.features@,
                    indices@.take(k as int),
                ),
                bundle@.clip_area == old(bundle)@.clip_area,
            decreases indices@.len() - k,
        {
            let i: usize = indices[k];
            proof {
                assert(indices@.take(k + 1).drop_last() =~= indices@.take(k as int));
                assert(indices@.take(k + 1).last() == i);
            }
            if i < self.features.len() {
                let paint: Paint = self.features[i].paint();
                bundle.update(&self.features[i].render_ids, paint);
            }
            k += 1;
        }
        assert(indices@.take(k as int) =~= indices@);
    }

    /// The first feature that the point lies inside of, if there is one.
    pub fn feature_at<Q: CartesianPoint2d>(&self, point: &Q) -> (r: Option<usize>)
        ensures
            r == first_feature_at(self.features@, point.x_spec(), point.y_spec(), 0),
            r.is_some() ==> r.unwrap() < self.features@.len(),
    {
        let mut k: usize = 0;
        while k < self.features.len()
            invariant
                k <= self.features@.len(),
                first_feature_at(self.features@, point.x_spec(), point.y_spec(), 0)
                    == first_feature_at(self.features@, point.x_spec(), point.y_spec(), k as int),
            decreases self.features@.len() - k,
        {
            if self.features[k].contains_point(point) {
                return Some(k);
            }
            k += 1;
        }
        None
    }

    /// Follows the pointer: takes its position into the space of the
    /// layer, and moves the selection to the first feature that lies under
    /// it there. Where the projection is undefined at the position, nothing
    /// changes, and the result says so.
    pub fn pointer_moved<Proj: Projection<OutPoint = Point3d>>(
        &mut self,
        position: &Proj::InPoint,
        projection: &Proj,
        bundle: &mut RenderBundle,
    ) -> (projected: bool)
        ensures
            projected == projection.project_spec(*position).is_some(),
            !projected ==> *final(self) == *old(self) && final(bundle)@ == old(bundle)@,
            projected ==> old(self).selected_to(
                old(self).under(projection.project_spec(*position).unwrap()),
                *final(self),
                old(bundle)@,
                final(bundle)@,
            ),
    {
        match projection.project(position) {
            None => false,
            Some(p) => {
                let hit: Option<usize> = self.feature_at(&p);
                self.select(hit, bundle);
                true
            },
        }
    }

    /// The feature under a pointer at `p`: the first one that `p` lies
    /// inside of.
    pub open spec fn under(&self, p: Point3d) -> Option<usize> {
        first_feature_at(self.features@, p.x as int, p.y as int, 0)
    }

    /// What selecting `hit` makes of the layer and of the primitives in a
    /// bundle: the selection moves as `next_selection_spec` says, the flags
    /// of the features follow it, and the features that it names are drawn
    /// anew.
    pub open spec fn selected_to(
        &self,
        hit: Option<usize>,
        after: FeatureLayer,
        bundle_before: RenderBundleView,
        bundle_after: RenderBundleView,
    ) -> bool {
        let next = next_selection_spec(self.selected, self.hit_spec(hit));
        &&& after.selected == next.0
        &&& after.features@.len() == self.features@.len()
        &&& forall|j: int|
            0 <= j < self.features@.len() ==> (#[trigger] after.features@[j]) == (LayerFeature {
                is_selected: selected_after(
                    self.features@[j].is_selected,
                    j,
                    self.selected,
                    self.hit_spec(hit),
                ),
                ..self.features@[j]
            })
        &&& bundle_after.primitives == restyled(bundle_before.primitives, after.features@, next.1)
        &&& bundle_after.clip_area == bundle_before.clip_area
    }

    /// Moves the selection to the feature under the pointer and draws anew
    /// what has changed. A `hit` that names no feature of the layer counts
    /// as a pointer over no feature. A pointer over the selected feature
    /// changes nothing. Otherwise the feature under the pointer becomes
    /// selected, the one that was selected is so no longer, and the
    /// primitives of these two, and of no other feature, are painted anew.
    pub fn select(&mut self, hit: Option<usize>, bundle: &mut RenderBundle)
        ensures
            old(self).selected_to(hit, *final(self), old(bundle)@, final(bundle)@),
    {
        let n: usize = self.features.len();
        let hit: Option<usize> = match hit {
            Some(i) => if i < n {
                Some(i)
            } else {
                None
            },
            None => None,
        };
        let (next, to_update) = next_selection(self.selected, hit);
        if to_update.len() > 0 {
            match hit {
                Some(i) => {
                    mark(&mut self.features, i, true);
                },
                None => {},
            }
            match self.selected {
                Some(s) => {
                    if s < n {
                        mark(&mut self.features, s, false);
                    }
                },
                None => {},
            }
        }
        self.selected = next;
        self.update_features(&to_update, bundle);
    }

    /// The feature under the pointer, for a pointer over `hit`: `hit`
    /// itself where it names a feature of the layer, and none otherwise.
    pub open spec fn hit_spec(&self, hit: Option<usize>) -> Option<usize> {
        match hit {
            Some(i) => if i < self.features@.len() {
                Some(i)
            } else {
                None
            },
            None => None,
        }
    }
}

} // verus!
