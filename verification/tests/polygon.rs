use galileo::cartesian::contour::{ClosedContour, Contour};
use galileo::cartesian::hit_test::RingSide;
use galileo::cartesian::point::{CartesianPoint2d, Point2d, Point3d};
use galileo::cartesian::polygon::Polygon;
use galileo::cartesian::rect::Rect;
use galileo::segment::Segment;

fn square(x0: i64, y0: i64, side: i64) -> ClosedContour<Point2d> {
    ClosedContour::new(vec![
        Point2d::new(x0, y0),
        Point2d::new(x0, y0 + side),
        Point2d::new(x0 + side, y0 + side),
        Point2d::new(x0 + side, y0),
    ])
}

fn holed() -> Polygon<Point2d> {
    Polygon::new(square(0, 0, 100), vec![square(10, 10, 5), square(50, 50, 7)])
}

#[test]
fn iter_contours_gives_outer_then_holes() {
    let polygon = holed();
    let contours = polygon.iter_contours();
    assert_eq!(contours.len(), 3);
    assert_eq!(*contours[0], square(0, 0, 100));
    assert_eq!(*contours[1], square(10, 10, 5));
    assert_eq!(*contours[2], square(50, 50, 7));
}

#[test]
fn iter_contours_of_polygon_without_holes() {
    let polygon = Polygon::new(square(0, 0, 1), vec![]);
    let contours = polygon.iter_contours();
    assert_eq!(contours.len(), 1);
    assert_eq!(*contours[0], square(0, 0, 1));
}

#[test]
fn trait_methods_agree_with_the_fields() {
    let polygon = holed();
    let outer = galileo::polygon::Polygon::outer_contour(&polygon);
    assert_eq!(*outer, square(0, 0, 100));
    let inner = galileo::polygon::Polygon::inner_contours(&polygon);
    assert_eq!(inner.len(), 2);
    assert_eq!(*inner[0], square(10, 10, 5));
    assert_eq!(*inner[1], square(50, 50, 7));
    let all = galileo::polygon::Polygon::iter_contours(&polygon);
    assert_eq!(all.len(), 3);
    assert_eq!(*all[0], square(0, 0, 100));
    assert_eq!(*all[2], square(50, 50, 7));
}

#[test]
fn cast_points_keeps_structure_and_order() {
    let polygon = holed();
    let moved = polygon.cast_points(|p: &Point2d| Point2d::new(p.x + 1000, p.y - 1000));
    assert_eq!(
        moved,
        Polygon::new(
            square(1000, -1000, 100),
            vec![square(1010, -990, 5), square(1050, -950, 7)]
        )
    );
    assert_eq!(polygon, holed());
}

#[test]
fn cast_points_can_change_the_point_type() {
    let polygon = Polygon::new(square(0, 0, 2), vec![square(1, 1, 1)]);
    let lifted = polygon.cast_points(|p: &Point2d| Point3d::new(p.x, p.y, 7));
    assert_eq!(
        lifted.outer_contour.points,
        vec![
            Point3d::new(0, 0, 7),
            Point3d::new(0, 2, 7),
            Point3d::new(2, 2, 7),
            Point3d::new(2, 0, 7)
        ]
    );
    assert_eq!(lifted.inner_contours.len(), 1);
    assert_eq!(lifted.inner_contours[0].points[2], Point3d::new(2, 2, 7));
}

#[test]
fn cast_points_with_identity_returns_the_same_points() {
    let polygon = holed();
    let same = polygon.cast_points(|p: &Point2d| *p);
    assert_eq!(same, polygon);
}

#[test]
fn polygon_from_contour_has_no_holes() {
    let polygon = Polygon::from(square(3, 4, 5));
    assert_eq!(polygon.outer_contour, square(3, 4, 5));
    assert!(polygon.inner_contours.is_empty());
}

#[test]
fn bounding_rectangle_of_polygon() {
    let polygon = Polygon::new(square(-5, 2, 10), vec![square(0, 3, 2)]);
    assert_eq!(polygon.bounding_rectangle(), Some(Rect::new(-5, 2, 5, 12)));
}

#[test]
fn bounding_rectangle_of_nothing_is_nothing() {
    let empty: Polygon<Point2d> = Polygon::new(ClosedContour::new(vec![]), vec![]);
    assert_eq!(empty.bounding_rectangle(), None);
    let contour: Contour<Point2d> = Contour::open(vec![]);
    assert_eq!(contour.bounding_rectangle(), None);
}

#[test]
fn bounding_rectangle_takes_every_ring_into_account() {
    let polygon = Polygon::new(ClosedContour::new(vec![]), vec![square(7, 8, 2)]);
    assert_eq!(polygon.bounding_rectangle(), Some(Rect::new(7, 8, 9, 10)));
    let wide = Polygon::new(square(0, 0, 1), vec![square(-10, 5, 30)]);
    assert_eq!(wide.bounding_rectangle(), Some(Rect::new(-10, 0, 20, 35)));
}

#[test]
fn bounding_rectangle_of_contour() {
    let contour = Contour::open(vec![
        Point2d::new(3, -1),
        Point2d::new(-4, 9),
        Point2d::new(0, 0),
    ]);
    assert_eq!(contour.bounding_rectangle(), Some(Rect::new(-4, -1, 3, 9)));
    let single = ClosedContour::new(vec![Point2d::new(5, 6)]);
    assert_eq!(single.bounding_rectangle(), Some(Rect::new(5, 6, 5, 6)));
}

#[test]
fn rect_merge_is_the_union() {
    let a = Rect::new(0, 0, 10, 10);
    let b = Rect::new(-5, 3, 4, 20);
    assert_eq!(a.merge(b), Rect::new(-5, 0, 10, 20));
    assert_eq!(b.merge(a), Rect::new(-5, 0, 10, 20));
    assert_eq!(a.merge(a), a);
    assert_eq!(a.x_min(), 0);
    assert_eq!(b.y_max(), 20);
    assert_eq!(b.x_max(), 4);
    assert_eq!(b.y_min(), 3);
}

#[test]
fn segments_of_closed_contour_wrap_around() {
    let ring = square(0, 0, 1);
    let segments = ring.iter_segments();
    assert_eq!(segments.len(), 4);
    assert_eq!(segments[0], Segment(&Point2d::new(0, 0), &Point2d::new(0, 1)));
    assert_eq!(segments[1], Segment(&Point2d::new(0, 1), &Point2d::new(1, 1)));
    assert_eq!(segments[2], Segment(&Point2d::new(1, 1), &Point2d::new(1, 0)));
    assert_eq!(segments[3], Segment(&Point2d::new(1, 0), &Point2d::new(0, 0)));
}

#[test]
fn segments_of_open_contour_do_not_wrap() {
    let line = Contour::open(vec![
        Point2d::new(0, 0),
        Point2d::new(1, 0),
        Point2d::new(1, 1),
    ]);
    let segments = line.iter_segments();
    assert_eq!(segments.len(), 2);
    assert_eq!(segments[0], Segment(&Point2d::new(0, 0), &Point2d::new(1, 0)));
    assert_eq!(segments[1], Segment(&Point2d::new(1, 0), &Point2d::new(1, 1)));
    let closed = Contour::closed(vec![Point2d::new(0, 0), Point2d::new(1, 0)]);
    assert_eq!(closed.iter_segments().len(), 2);
    assert!(closed.is_closed());
    assert!(!line.is_closed());
}

#[test]
fn segments_of_degenerate_contours() {
    let empty: Contour<Point2d> = Contour::closed(vec![]);
    assert!(empty.iter_segments().is_empty());
    let single_open = Contour::open(vec![Point2d::new(1, 1)]);
    assert!(single_open.iter_segments().is_empty());
    let single_closed = Contour::closed(vec![Point2d::new(1, 1)]);
    let segments = single_closed.iter_segments();
    assert_eq!(segments.len(), 1);
    assert_eq!(segments[0], Segment(&Point2d::new(1, 1), &Point2d::new(1, 1)));
}

#[test]
fn into_closed_only_for_closed_contours() {
    let points = vec![Point2d::new(0, 0), Point2d::new(1, 0), Point2d::new(1, 1)];
    assert_eq!(Contour::open(points.clone()).into_closed(), None);
    assert_eq!(
        Contour::closed(points.clone()).into_closed(),
        Some(ClosedContour::new(points.clone()))
    );
    assert_eq!(Contour::new(points.clone(), true), Contour::closed(points));
}

#[test]
fn polygon_segments_run_through_all_rings() {
    let polygon = Polygon::new(square(0, 0, 10), vec![square(2, 2, 3)]);
    let segments = galileo::polygon::Polygon::iter_segments(&polygon);
    assert_eq!(segments.len(), 8);
    assert_eq!(segments[0], Segment(&Point2d::new(0, 0), &Point2d::new(0, 10)));
    assert_eq!(segments[3], Segment(&Point2d::new(10, 0), &Point2d::new(0, 0)));
    assert_eq!(segments[4], Segment(&Point2d::new(2, 2), &Point2d::new(2, 5)));
    assert_eq!(segments[7], Segment(&Point2d::new(5, 2), &Point2d::new(2, 2)));
}

#[test]
fn contains_point_inside_outer_and_outside_holes() {
    let polygon = Polygon::new(square(0, 0, 100), vec![square(40, 40, 20)]);
    assert!(polygon.contains_point(&Point2d::new(10, 10)));
    assert!(polygon.contains_point(&Point2d::new(99, 1)));
    assert!(polygon.contains_point(&Point2d::new(39, 50)));
    assert!(polygon.contains_point(&Point2d::new(61, 61)));
}

#[test]
fn contains_point_is_false_inside_a_hole() {
    let polygon = Polygon::new(
        square(0, 0, 100),
        vec![square(10, 10, 5), square(40, 40, 20)],
    );
    assert!(!polygon.contains_point(&Point2d::new(50, 50)));
    assert!(!polygon.contains_point(&Point2d::new(41, 59)));
    assert!(!polygon.contains_point(&Point2d::new(12, 12)));
}

#[test]
fn contains_point_is_false_outside_the_outer_ring() {
    let polygon = Polygon::new(square(0, 0, 100), vec![square(40, 40, 20)]);
    assert!(!polygon.contains_point(&Point2d::new(200, 50)));
    assert!(!polygon.contains_point(&Point2d::new(-1, 50)));
    assert!(!polygon.contains_point(&Point2d::new(50, 101)));
    assert!(!polygon.contains_point(&Point2d::new(50, -1)));
}

#[test]
fn contains_point_counts_the_boundary_as_outside() {
    let polygon = Polygon::new(square(0, 0, 100), vec![square(40, 40, 20)]);
    assert!(!polygon.contains_point(&Point2d::new(0, 50)));
    assert!(!polygon.contains_point(&Point2d::new(100, 100)));
    assert!(!polygon.contains_point(&Point2d::new(0, 0)));
    assert!(!polygon.contains_point(&Point2d::new(50, 100)));
    assert!(!polygon.contains_point(&Point2d::new(40, 50)));
    assert!(!polygon.contains_point(&Point2d::new(60, 60)));
    let triangle = Polygon::from(ClosedContour::new(vec![
        Point2d::new(0, 0),
        Point2d::new(10, 0),
        Point2d::new(0, 10),
    ]));
    assert!(triangle.contains_point(&Point2d::new(2, 2)));
    assert!(!triangle.contains_point(&Point2d::new(5, 5)));
    assert!(!triangle.contains_point(&Point2d::new(6, 6)));
}

#[test]
fn contains_point_with_a_ray_through_corners() {
    let diamond = Polygon::from(ClosedContour::new(vec![
        Point2d::new(0, -10),
        Point2d::new(10, 0),
        Point2d::new(0, 10),
        Point2d::new(-10, 0),
    ]));
    assert!(diamond.contains_point(&Point2d::new(-5, 0)));
    assert!(diamond.contains_point(&Point2d::new(0, 0)));
    assert!(!diamond.contains_point(&Point2d::new(-20, 0)));
    assert!(!diamond.contains_point(&Point2d::new(-20, 10)));
    assert!(!diamond.contains_point(&Point2d::new(-20, -10)));
    assert!(!diamond.contains_point(&Point2d::new(20, 0)));
}

#[test]
fn contains_point_does_not_depend_on_the_direction_of_a_ring() {
    let mut points = square(0, 0, 10).points;
    points.reverse();
    let polygon = Polygon::from(ClosedContour::new(points));
    assert!(polygon.contains_point(&Point2d::new(5, 5)));
    assert!(!polygon.contains_point(&Point2d::new(15, 5)));
}

#[test]
fn contains_point_at_the_limits_of_the_coordinates() {
    let world = Polygon::from(ClosedContour::new(vec![
        Point2d::new(i64::MIN, i64::MIN),
        Point2d::new(i64::MIN, i64::MAX),
        Point2d::new(i64::MAX, i64::MAX),
        Point2d::new(i64::MAX, i64::MIN),
    ]));
    assert!(world.contains_point(&Point2d::new(0, 0)));
    assert!(world.contains_point(&Point2d::new(i64::MAX - 1, i64::MIN + 1)));
    assert!(!world.contains_point(&Point2d::new(i64::MAX, 0)));
    let slanted = Polygon::from(ClosedContour::new(vec![
        Point2d::new(i64::MIN, i64::MIN),
        Point2d::new(i64::MAX, i64::MAX),
        Point2d::new(i64::MAX, i64::MIN),
    ]));
    assert!(slanted.contains_point(&Point2d::new(1, 0)));
    assert!(!slanted.contains_point(&Point2d::new(0, 0)));
    assert!(!slanted.contains_point(&Point2d::new(0, 1)));
    assert!(!slanted.contains_point(&Point2d::new(-1, -1)));
}

#[test]
fn contains_point_of_degenerate_polygons() {
    let empty: Polygon<Point2d> = Polygon::from(ClosedContour::new(vec![]));
    assert!(!empty.contains_point(&Point2d::new(0, 0)));
    let dot = Polygon::from(ClosedContour::new(vec![Point2d::new(1, 1)]));
    assert!(!dot.contains_point(&Point2d::new(1, 1)));
    assert!(!dot.contains_point(&Point2d::new(0, 0)));
}

#[test]
fn contains_point_takes_any_kind_of_point() {
    let polygon = Polygon::from(square(0, 0, 10));
    assert!(polygon.contains_point(&Point3d::new(5, 5, 99)));
    assert!(polygon.is_point_inside(&Point3d::new(5, 5, 0), 3));
    assert!(!polygon.is_point_inside(&Point2d::new(11, 5), 3));
    assert_eq!(Point3d::new(4, 5, 6).x(), 4);
    assert_eq!(Point3d::new(4, 5, 6).y(), 5);
}

#[test]
fn side_of_tells_inside_boundary_and_outside_apart() {
    let ring = square(0, 0, 10);
    assert_eq!(ring.side_of(5, 5), RingSide::Inside);
    assert_eq!(ring.side_of(10, 5), RingSide::Boundary);
    assert_eq!(ring.side_of(0, 0), RingSide::Boundary);
    assert_eq!(ring.side_of(11, 5), RingSide::Outside);
}
