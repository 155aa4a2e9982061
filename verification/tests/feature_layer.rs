use galileo::cartesian::contour::ClosedContour;
use galileo::cartesian::point::Point3d;
use galileo::cartesian::polygon::Polygon;
use galileo::feature_layer::{next_selection, FeatureLayer, LayerFeature};
use galileo::cartesian::point::Point2d;
use galileo::cartesian::rect::Rect;
use galileo::mvt::{MvtFeature, MvtGeometry, MvtPoint};
use galileo::projection::InvertedProjection;
use galileo::render::{Color, Paint, PolygonPaint, Primitive, PrimitiveId, RenderBundle};
use galileo::tile_projection::TileProjection;

fn part(x: i64) -> Polygon<Point3d> {
    Polygon::new(
        ClosedContour::new(vec![
            Point3d::new(x, 0, 0),
            Point3d::new(x + 1, 0, 0),
            Point3d::new(x, 1, 0),
        ]),
        vec![],
    )
}

fn color(i: u8) -> Color {
    Color { r: i, g: 10 * i, b: 20 * i, a: 77 }
}

fn paint(i: u8, selected: bool) -> Paint {
    Paint::Polygon(PolygonPaint {
        color: Color { r: i, g: 10 * i, b: 20 * i, a: if selected { 255 } else { 150 } },
    })
}

/// Five features; feature `i` is drawn as `i + 1` polygons.
fn layer() -> (FeatureLayer, RenderBundle) {
    let mut bundle = RenderBundle::new();
    let mut layer = FeatureLayer::new();
    for i in 0..5u8 {
        let parts: Vec<_> = (0..=i).map(|k| part(100 * i as i64 + k as i64)).collect();
        assert_eq!(layer.add_feature(parts, color(i), 3, &mut bundle), i as usize);
    }
    (layer, bundle)
}

fn snapshot(bundle: &RenderBundle) -> Vec<Primitive> {
    (0..bundle.len()).map(|i| bundle.get(PrimitiveId(i)).unwrap().clone()).collect()
}

fn ids(range: std::ops::Range<usize>) -> Vec<PrimitiveId> {
    range.map(PrimitiveId).collect()
}

#[test]
fn features_record_their_primitives() {
    let (layer, bundle) = layer();
    assert_eq!(bundle.len(), 15);
    assert_eq!(layer.selected, None);
    assert_eq!(layer.features.len(), 5);
    assert_eq!(layer.features[0].render_ids, ids(0..1));
    assert_eq!(layer.features[1].render_ids, ids(1..3));
    assert_eq!(layer.features[3].render_ids, ids(6..10));
    assert_eq!(layer.features[4].render_ids, ids(10..15));
    for feature in &layer.features {
        assert!(!feature.is_selected);
    }
    let all = snapshot(&bundle);
    assert_eq!(all[0].paint, paint(0, false));
    assert_eq!(all[7].paint, paint(3, false));
    assert_eq!(all[7].min_resolution, 3);
    assert_eq!(all[7].geometry, galileo::render::Geometry::Polygon(part(301)));
}

#[test]
fn selecting_feature_3_after_feature_1_updates_exactly_their_primitives() {
    let (mut layer, mut bundle) = layer();
    layer.select(Some(1), &mut bundle);
    assert_eq!(layer.selected, Some(1));
    let before = snapshot(&bundle);
    assert_eq!(before[1].paint, paint(1, true));
    assert_eq!(before[2].paint, paint(1, true));

    layer.select(Some(3), &mut bundle);

    assert_eq!(layer.selected, Some(3));
    let after = snapshot(&bundle);
    assert_eq!(after.len(), before.len());
    for i in 0..after.len() {
        assert_eq!(after[i].geometry, before[i].geometry);
        assert_eq!(after[i].min_resolution, before[i].min_resolution);
        let expected = match i {
            1..=2 => paint(1, false),
            6..=9 => paint(3, true),
            _ => before[i].paint,
        };
        assert_eq!(after[i].paint, expected);
    }
    let changed: Vec<usize> = (0..after.len()).filter(|i| after[*i] != before[*i]).collect();
    assert_eq!(changed, vec![1, 2, 6, 7, 8, 9]);
    let flags: Vec<bool> = layer.features.iter().map(|f| f.is_selected).collect();
    assert_eq!(flags, vec![false, false, false, true, false]);
}

#[test]
fn first_selection_updates_one_feature() {
    let (mut layer, mut bundle) = layer();
    let before = snapshot(&bundle);
    layer.select(Some(4), &mut bundle);
    let after = snapshot(&bundle);
    let changed: Vec<usize> = (0..after.len()).filter(|i| after[*i] != before[*i]).collect();
    assert_eq!(changed, vec![10, 11, 12, 13, 14]);
    assert_eq!(after[12].paint, paint(4, true));
    assert!(layer.features[4].is_selected);
}

#[test]
fn pointer_over_the_selected_feature_changes_nothing() {
    let (mut layer, mut bundle) = layer();
    layer.select(Some(2), &mut bundle);
    let layer_before = layer.clone();
    let before = snapshot(&bundle);
    layer.select(Some(2), &mut bundle);
    assert_eq!(layer, layer_before);
    assert_eq!(snapshot(&bundle), before);
}

#[test]
fn pointer_over_nothing_clears_the_selection() {
    let (mut layer, mut bundle) = layer();
    let fresh = snapshot(&bundle);
    layer.select(Some(2), &mut bundle);
    layer.select(None, &mut bundle);
    assert_eq!(layer.selected, None);
    assert!(!layer.features[2].is_selected);
    assert_eq!(snapshot(&bundle), fresh);
    layer.select(None, &mut bundle);
    assert_eq!(layer.selected, None);
    assert_eq!(snapshot(&bundle), fresh);
}

#[test]
fn pointer_over_an_unknown_feature_counts_as_over_nothing() {
    let (mut layer, mut bundle) = layer();
    let fresh = snapshot(&bundle);
    layer.select(Some(5), &mut bundle);
    assert_eq!(layer.selected, None);
    assert_eq!(snapshot(&bundle), fresh);
    layer.select(Some(0), &mut bundle);
    layer.select(Some(usize::MAX), &mut bundle);
    assert_eq!(layer.selected, None);
    assert!(!layer.features[0].is_selected);
    assert_eq!(snapshot(&bundle), fresh);
}

#[test]
fn next_selection_names_the_new_feature_before_the_old() {
    assert_eq!(next_selection(None, None), (None, vec![]));
    assert_eq!(next_selection(None, Some(3)), (Some(3), vec![3]));
    assert_eq!(next_selection(Some(1), Some(3)), (Some(3), vec![3, 1]));
    assert_eq!(next_selection(Some(3), Some(3)), (Some(3), vec![]));
    assert_eq!(next_selection(Some(1), None), (None, vec![1]));
}

#[test]
fn update_features_repaints_from_the_state_of_the_features() {
    let (mut layer, mut bundle) = layer();
    layer.features[0].is_selected = true;
    layer.features[4].color = color(9);
    layer.update_features(&vec![0, 4, 17], &mut bundle);
    let after = snapshot(&bundle);
    assert_eq!(after[0].paint, paint(0, true));
    assert_eq!(after[1].paint, paint(1, false));
    assert_eq!(after[10].paint, paint(9, false));
    assert_eq!(after[14].paint, paint(9, false));
    let lone = LayerFeature {
        polygons: vec![],
        color: color(2),
        is_selected: true,
        render_ids: vec![],
    };
    assert_eq!(lone.paint(), paint(2, true));
}

#[test]
fn feature_without_polygons_has_no_primitives() {
    let mut bundle = RenderBundle::new();
    let mut layer = FeatureLayer::new();
    assert_eq!(layer.add_feature(vec![], color(1), 3, &mut bundle), 0);
    assert_eq!(bundle.len(), 0);
    assert!(layer.features[0].render_ids.is_empty());
    layer.select(Some(0), &mut bundle);
    assert_eq!(layer.selected, Some(0));
    assert!(layer.features[0].is_selected);
}

fn square(x0: i64, y0: i64, side: i64) -> Polygon<Point3d> {
    Polygon::new(
        ClosedContour::new(vec![
            Point3d::new(x0, y0, 0),
            Point3d::new(x0, y0 + side, 0),
            Point3d::new(x0 + side, y0 + side, 0),
            Point3d::new(x0 + side, y0, 0),
        ]),
        vec![],
    )
}

/// Three features: a square, two squares that overlap the first, and a
/// square far away.
fn squares() -> (FeatureLayer, RenderBundle) {
    let mut bundle = RenderBundle::new();
    let mut layer = FeatureLayer::new();
    layer.add_feature(vec![square(0, 0, 100)], color(1), 1, &mut bundle);
    layer.add_feature(vec![square(50, 50, 100), square(200, 0, 40)], color(2), 1, &mut bundle);
    layer.add_feature(vec![square(1000, 1000, 40)], color(3), 1, &mut bundle);
    (layer, bundle)
}

#[test]
fn features_keep_their_polygons() {
    let (layer, bundle) = squares();
    assert_eq!(layer.features[1].polygons, vec![square(50, 50, 100), square(200, 0, 40)]);
    assert_eq!(layer.features[1].render_ids, ids(1..3));
    assert_eq!(
        bundle.get(PrimitiveId(2)).unwrap().geometry,
        galileo::render::Geometry::Polygon(square(200, 0, 40))
    );
}

#[test]
fn feature_at_finds_the_first_feature_under_a_point() {
    let (layer, _) = squares();
    assert_eq!(layer.feature_at(&Point2d::new(10, 10)), Some(0));
    assert_eq!(layer.feature_at(&Point2d::new(75, 75)), Some(0));
    assert_eq!(layer.feature_at(&Point2d::new(120, 120)), Some(1));
    assert_eq!(layer.feature_at(&Point2d::new(210, 10)), Some(1));
    assert_eq!(layer.feature_at(&Point3d::new(1010, 1010, 5)), Some(2));
    assert_eq!(layer.feature_at(&Point2d::new(500, 500)), None);
    assert_eq!(layer.feature_at(&Point2d::new(100, 20)), None);
    assert!(layer.features[1].contains_point(&Point2d::new(75, 75)));
    assert!(!layer.features[1].contains_point(&Point2d::new(10, 10)));
    assert_eq!(FeatureLayer::new().feature_at(&Point2d::new(0, 0)), None);
}

#[test]
fn pointer_selects_what_lies_under_it() {
    let (mut layer, mut bundle) = squares();
    let to_layer = InvertedProjection::new(TileProjection::new(Rect::new(0, 0, 400, 400), 1));
    let fresh = snapshot(&bundle);

    assert!(layer.pointer_moved(&MvtPoint::new(120, 280), &to_layer.inner, &mut bundle));
    assert_eq!(layer.selected, Some(1));
    let after = snapshot(&bundle);
    let changed: Vec<usize> = (0..after.len()).filter(|i| after[*i] != fresh[*i]).collect();
    assert_eq!(changed, vec![1, 2]);
    assert_eq!(after[1].paint, paint(2, true));

    assert!(layer.pointer_moved(&MvtPoint::new(10, 390), &to_layer.inner, &mut bundle));
    assert_eq!(layer.selected, Some(0));
    let after = snapshot(&bundle);
    assert_eq!(after[0].paint, paint(1, true));
    assert_eq!(after[1].paint, paint(2, false));
    assert_eq!(after[2].paint, paint(2, false));
    assert_eq!(after[3].paint, paint(3, false));

    assert!(layer.pointer_moved(&MvtPoint::new(300, 100), &to_layer.inner, &mut bundle));
    assert_eq!(layer.selected, None);
    assert_eq!(snapshot(&bundle), fresh);
}

#[test]
fn pointer_where_the_projection_is_undefined_changes_nothing() {
    let (mut layer, mut bundle) = squares();
    layer.select(Some(2), &mut bundle);
    let layer_before = layer.clone();
    let before = snapshot(&bundle);
    let broken = TileProjection::new(Rect::new(0, 0, 0, 0), 0);
    assert!(!layer.pointer_moved(&MvtPoint::new(10, 10), &broken, &mut bundle));
    assert_eq!(layer, layer_before);
    assert_eq!(snapshot(&bundle), before);
}

#[test]
fn features_of_a_tile_are_hit_by_their_polygons() {
    let ring = |x: i32, y: i32, side: i32| {
        ClosedContour::new(vec![
            MvtPoint::new(x, y),
            MvtPoint::new(x, y + side),
            MvtPoint::new(x + side, y + side),
            MvtPoint::new(x + side, y),
        ])
    };
    let lake = MvtFeature {
        id: Some(1),
        properties: vec![],
        geometry: MvtGeometry::Polygon(vec![
            Polygon::new(ring(0, 0, 100), vec![ring(40, 40, 20)]),
            Polygon::new(ring(200, 200, 10), vec![]),
        ]),
    };
    assert!(lake.contains_point(&MvtPoint::new(10, 10)));
    assert!(lake.contains_point(&MvtPoint::new(205, 205)));
    assert!(!lake.contains_point(&MvtPoint::new(50, 50)));
    assert!(!lake.contains_point(&MvtPoint::new(150, 150)));
    assert!(!lake.contains_point(&MvtPoint::new(0, 0)));
    let road = MvtFeature {
        id: None,
        properties: vec![],
        geometry: MvtGeometry::LineString(vec![galileo::cartesian::contour::Contour::closed(
            ring(0, 0, 100).points,
        )]),
    };
    assert!(!road.contains_point(&MvtPoint::new(10, 10)));
    let places = MvtFeature {
        id: None,
        properties: vec![],
        geometry: MvtGeometry::Point(vec![MvtPoint::new(10, 10)]),
    };
    assert!(!places.contains_point(&MvtPoint::new(10, 10)));
}
