use vstd::prelude::*;
use crate::cartesian::contour::{ClosedContour, Contour, ContourView};
use crate::cartesian::point::Point3d;
use crate::cartesian::polygon::{Polygon, PolygonView};
use crate::cartesian::rect::Rect;
use crate::data_processor::DataProcessor;
use crate::error::GalileoError;
use crate::numeric::to_i64;
use crate::mvt::{MvtFeature, MvtGeometry, MvtLayer, MvtPoint, MvtTile};
use crate::render::{
    GeometryView, LineCap, LinePaint, Paint, PolygonPaint, PrimitiveView, RenderBundle,
    RenderBundleView,
};
use crate::style::{LineSymbol, PolygonSymbol, VectorTileStyle};
use crate::tile_scheme::{
    lemma_bbox_bounds, lemma_tile_span_bounds, TileIndex, TileScheme, TileSchemeView, MAX_CORNER,
    MAX_TILE_SPAN,
};

verus! {

/// Where in the world a point of a tile lies: `span` map units to the
/// right of the tile's left side for each unit of `x`, and `span` map units
/// below the tile's top side for each unit of `y`, at height zero.
pub open spec fn transform_spec(p: MvtPoint, bbox: Rect, span: i64) -> Point3d {
    Point3d { x: (bbox.x_min + p.x * span) as i64, y: (bbox.y_max - p.y * span) as i64, z: 0 }
}

/// Each point of `points` where it lies in the world.
pub open spec fn transformed(points: Seq<MvtPoint>, bbox: Rect, span: i64) -> Seq<Point3d> {
    Seq::new(points.len(), |i: int| transform_spec(points[i], bbox, span))
}

/// A polygon of a tile where it lies in the world.
pub open spec fn transformed_polygon(polygon: PolygonView<MvtPoint>, bbox: Rect, span: i64)
    -> PolygonView<Point3d> {
    PolygonView {
        outer: transformed(polygon.outer, bbox, span),
        inner: Seq::new(polygon.inner.len(), |j: int| transformed(polygon.inner[j], bbox, span)),
    }
}

/// The tiles for which every point of the tile's raster has representable
/// world coordinates. The tiles of every tile scheme are among them.
pub open spec fn placement_fits(bbox: Rect, span: i64) -> bool {
    &&& 1 <= span <= MAX_TILE_SPAN
    &&& -MAX_CORNER <= bbox.x_min <= MAX_CORNER
    &&& -MAX_CORNER <= bbox.y_max <= MAX_CORNER
}

/// The paint of a line drawn with `symbol`: the symbol's colour and width,
/// no offset, and butt caps.
pub open spec fn line_paint(symbol: Option<LineSymbol>) -> Option<LinePaint> {
    match symbol {
        Some(s) => Some(
            LinePaint { color: s.stroke_color, width: s.width, offset: 0, line_cap: LineCap::Butt },
        ),
        None => None,
    }
}

/// The paint of a polygon drawn with `symbol`: the symbol's fill colour.
pub open spec fn polygon_paint(symbol: Option<PolygonSymbol>) -> Option<PolygonPaint> {
    match symbol {
        Some(s) => Some(PolygonPaint { color: s.fill_color }),
        None => None,
    }
}

/// The rectangle `bbox` as a polygon without holes, at height zero.
pub open spec fn bounds_view(bbox: Rect) -> PolygonView<Point3d> {
    PolygonView {
        outer: seq![
            Point3d { x: bbox.x_min, y: bbox.y_min, z: 0 },
            Point3d { x: bbox.x_min, y: bbox.y_max, z: 0 },
            Point3d { x: bbox.x_max, y: bbox.y_max, z: 0 },
            Point3d { x: bbox.x_max, y: bbox.y_min, z: 0 },
        ],
        inner: Seq::empty(),
    }
}

/// The primitive that fills a tile with the background colour.
pub open spec fn background_primitive(style: &VectorTileStyle, bbox: Rect, resolution: i64)
    -> PrimitiveView {
    PrimitiveView {
        geometry: GeometryView::Polygon(bounds_view(bbox)),
        paint: Paint::Polygon(PolygonPaint { color: style.background }),
        min_resolution: resolution,
    }
}

/// The primitives of the lines of a feature: one open line for each
/// contour, in order, whether or not the contour was closed in the tile.
pub open spec fn line_primitives(
    contours: Seq<Contour<MvtPoint>>,
    paint: LinePaint,
    bbox: Rect,
    span: i64,
    resolution: i64,
) -> Seq<PrimitiveView> {
    Seq::new(
        contours.len(),
        |i: int|
            PrimitiveView {
                geometry: GeometryView::Line(
                    ContourView {
                        points: transformed(contours[i].points@, bbox, span),
                        is_closed: false,
                    },
                ),
                paint: Paint::Line(paint),
                min_resolution: resolution,
            },
    )
}

/// The primitives of the polygons of a feature: one for each polygon, in
/// order, with its holes.
pub open spec fn polygon_primitives(
    polygons: Seq<Polygon<MvtPoint>>,
    paint: PolygonPaint,
    bbox: Rect,
    span: i64,
    resolution: i64,
) -> Seq<PrimitiveView> {
    Seq::new(
        polygons.len(),
        |i: int|
            PrimitiveView {
                geometry: GeometryView::Polygon(transformed_polygon(polygons[i]@, bbox, span)),
                paint: Paint::Polygon(paint),
                min_resolution: resolution,
            },
    )
}

/// The primitives of one feature. Points are not drawn. Lines and polygons
/// are drawn with the symbol that the style gives the feature, and not at
/// all where that symbol has nothing for their kind.
pub open spec fn feature_primitives(
    style: &VectorTileStyle,
    layer_name: Seq<char>,
    feature: &MvtFeature,
    bbox: Rect,
    span: i64,
    resolution: i64,
) -> Seq<PrimitiveView> {
    let symbol = style.symbol_for(layer_name, feature);
    match feature.geometry {
        MvtGeometry::Point(_) => Seq::empty(),
        MvtGeometry::LineString(contours) => match line_paint(symbol.line) {
            Some(paint) => line_primitives(contours@, paint, bbox, span, resolution),
            None => Seq::empty(),
        },
        MvtGeometry::Polygon(polygons) => match polygon_paint(symbol.polygon) {
            Some(paint) => polygon_primitives(polygons@, paint, bbox, span, resolution),
            None => Seq::empty(),
        },
    }
}

/// The primitives of the features of one layer, feature after feature.
pub open spec fn features_primitives(
    style: &VectorTileStyle,
    layer_name: Seq<char>,
    features: Seq<MvtFeature>,
    bbox: Rect,
    span: i64,
    resolution: i64,
) -> Seq<PrimitiveView>
    decreases features.len(),
{
    if features.len() == 0 {
        Seq::empty()
    } else {
        features_primitives(style, layer_name, features.drop_last(), bbox, span, resolution)
            + feature_primitives(style, layer_name, &features.last(), bbox, span, resolution)
    }
}

/// The primitives of several layers, layer after layer.
pub open spec fn layers_primitives(
    style: &VectorTileStyle,
    layers: Seq<MvtLayer>,
    bbox: Rect,
    span: i64,
    resolution: i64,
) -> Seq<PrimitiveView>
    decreases layers.len(),
{
    if layers.len() == 0 {
        Seq::empty()
    } else {
        layers_primitives(style, layers.drop_last(), bbox, span, resolution) + features_primitives(
            style,
            layers.last().name@,
            layers.last().features@,
            bbox,
            span,
            resolution,
        )
    }
}

/// The primitives of a tile: the background first, then the features in
/// the order of the tile, so that later features are painted over earlier
/// ones.
pub open spec fn tile_primitives(
    tile: &MvtTile,
    style: &VectorTileStyle,
    bbox: Rect,
    span: i64,
    resolution: i64,
) -> Seq<PrimitiveView> {
    seq![background_primitive(style, bbox, resolution)] + layers_primitives(
        style,
        tile.layers@,
        bbox,
        span,
        resolution,
    )
}

/// What a bundle holds after the tile at `index` was prepared into it:
/// what it held before and then the primitives of the tile, clipped to the
/// tile's bounding box.
pub open spec fn prepared(
    before: RenderBundleView,
    tile: &MvtTile,
    style: &VectorTileStyle,
    scheme: TileSchemeView,
    index: TileIndex,
) -> RenderBundleView {
    let bbox = scheme.bbox(index);
    RenderBundleView {
        primitives: before.primitives + tile_primitives(
            tile,
            style,
            bbox,
            scheme.tile_span(index.z) as i64,
            scheme.resolutions[index.z as int],
        ),
        clip_area: Some(bounds_view(bbox)),
    }
}

/// Turns decoded vector tiles into styled primitives.
pub struct VtProcessor {}

/// What the processor needs beside the tile itself.
pub struct VectorTileDecodeContext {
    pub index: TileIndex,
    pub style: VectorTileStyle,
    pub tile_scheme: TileScheme,
    pub bundle: RenderBundle,
}

/// The rectangle `bbox` as a polygon without holes, at height zero.
fn bounds_polygon(bbox: Rect) -> (p: Polygon<Point3d>)
    ensures
        p@ == bounds_view(bbox),
{
    let mut points: Vec<Point3d> = Vec::new();
    points.push(Point3d::new(bbox.x_min, bbox.y_min, 0));
    points.push(Point3d::new(bbox.x_min, bbox.y_max, 0));
    points.push(Point3d::new(bbox.x_max, bbox.y_max, 0));
    points.push(Point3d::new(bbox.x_max, bbox.y_min, 0));
    let p: Polygon<Point3d> = Polygon::new(ClosedContour::new(points), Vec::new());
    assert(p@.outer =~= bounds_view(bbox).outer);
    assert(p@.inner =~= bounds_view(bbox).inner);
    p
}

/// Every point of `points` where it lies in the world.
fn transform_points(points: &Vec<MvtPoint>, bbox: Rect, span: i64) -> (r: Vec<Point3d>)
    requires
        placement_fits(bbox, span),
    ensures
        r@ == transformed(points@, bbox, span),
{
    let mut out: Vec<Point3d> = Vec::new();
    let mut k: usize = 0;
    while k < points.len()
        invariant
            k <= points@.len(),
            placement_fits(bbox, span),
            out@.len() == k,
            forall|i: int| 0 <= i < k ==> #[trigger] out@[i] == transform_spec(points@[i], bbox, span),
        decreases points@.len() - k,
    {
        out.push(VtProcessor::transform_point(&points[k], bbox, span));
        k += 1;
    }
    assert(out@ =~= transformed(points@, bbox, span));
    out
}

/// Appends the lines of a feature to the bundle.
fn add_lines(
    bundle: &mut RenderBundle,
    contours: &Vec<Contour<MvtPoint>>,
    paint: LinePaint,
    bbox: Rect,
    span: i64,
    resolution: i64,
)
    requires
        placement_fits(bbox, span),
    ensures
        final(bundle)@.primitives == old(bundle)@.primitives + line_primitives(
            contours@,
            paint,
            bbox,
            span,
            resolution,
        ),
        final(bundle)@.clip_area == old(bundle)@.clip_area,
{
    let ghost all = line_primitives(contours@, paint, bbox, span, resolution);
    let mut k: usize = 0;
    assert(bundle@.primitives =~= old(bundle)@.primitives + all.take(0));
    while k < contours.len()
        invariant
            k <= contours@.len(),
            placement_fits(bbox, span),
            all == line_primitives(contours@, paint, bbox, span, resolution),
            bundle@.primitives == old(bundle)@.primitives + all.take(k as int),
            bundle@.clip_area == old(bundle)@.clip_area,
        decreases contours@.len() - k,
    {
        let points: Vec<Point3d> = transform_points(&contours[k].points, bbox, span);
        let ghost before = bundle@.primitives;
        bundle.add_line(Contour::open(points), paint, resolution);
        proof {
            assert(all.take(k + 1) =~= all.take(k as int).push(all[k as int]));
            assert(bundle@.primitives =~= old(bundle)@.primitives + all.take(k + 1));
        }
        k += 1;
    }
    assert(all.take(k as int) =~= all);
}

/// Appends the polygons of a feature to the bundle.
fn add_polygons(
    bundle: &mut RenderBundle,
    polygons: &Vec<Polygon<MvtPoint>>,
    paint: PolygonPaint,
    bbox: Rect,
    span: i64,
    resolution: i64,
)
    requires
        placement_fits(bbox, span),
    ensures
        final(bundle)@.primitives == old(bundle)@.primitives + polygon_primitives(
            polygons@,
            paint,
            bbox,
            span,
            resolution,
        ),
        final(bundle)@.clip_area == old(bundle)@.clip_area,
{
    let ghost all = polygon_primitives(polygons@, paint, bbox, span, resolution);
    let mut k: usize = 0;
    assert(bundle@.primitives =~= old(bundle)@.primitives + all.take(0));
    while k < polygons.len()
        invariant
            k <= polygons@.len(),
            placement_fits(bbox, span),
            all == polygon_primitives(polygons@, paint, bbox, span, resolution),
            bundle@.primitives == old(bundle)@.primitives + all.take(k as int),
            bundle@.clip_area == old(bundle)@.clip_area,
        decreases polygons@.len() - k,
    {
        let polygon: &Polygon<MvtPoint> = &polygons[k];
        let cast = |p: &MvtPoint| -> (r: Point3d)
            ensures
                r == transform_spec(*p, bbox, span),
            { VtProcessor::transform_point(p, bbox, span) };
        let placed: Polygon<Point3d> = polygon.cast_points(cast);
        proof {
            let want = transformed_polygon(polygon@, bbox, span);
            assert(placed@.outer =~= want.outer);
            assert forall|j: int| 0 <= j < want.inner.len() implies placed@.inner[j]
                == want.inner[j] by {
                assert(placed.inner_contours@[j].points@ =~= transformed(
                    polygon.inner_contours@[j].points@,
                    bbox,
                    span,
                ));
            }
            assert(placed@.inner =~= want.inner);
        }
        bundle.add_polygon(placed, paint, resolution);
        proof {
            assert(all.take(k + 1) =~= all.take(k as int).push(all[k as int]));
            assert(bundle@.primitives =~= old(bundle)@.primitives + all.take(k + 1));
        }
        k += 1;
    }
    assert(all.take(k as int) =~= all);
}

/// Appends the primitives of one feature to the bundle.
fn add_feature(
    bundle: &mut RenderBundle,
    style: &VectorTileStyle,
    layer_name: &String,
    feature: &MvtFeature,
    bbox: Rect,
    span: i64,
    resolution: i64,
)
    requires
        placement_fits(bbox, span),
    ensures
        final(bundle)@.primitives == old(bundle)@.primitives + feature_primitives(
            style,
            layer_name@,
            feature,
            bbox,
            span,
            resolution,
        ),
        final(bundle)@.clip_area == old(bundle)@.clip_area,
{
    let ghost want = feature_primitives(style, layer_name@, feature, bbox, span, resolution);
    match &feature.geometry {
        MvtGeometry::Point(_points) => {
            assert(bundle@.primitives =~= old(bundle)@.primitives + want);
        },
        MvtGeometry::LineString(contours) => {
            match VtProcessor::get_line_symbol(style, layer_name, feature) {
                Some(paint) => {
                    add_lines(bundle, contours, paint, bbox, span, resolution);
                },
                None => {
                    assert(bundle@.primitives =~= old(bundle)@.primitives + want);
                },
            }
        },
        MvtGeometry::Polygon(polygons) => {
            match VtProcessor::get_polygon_symbol(style, layer_name, feature) {
                Some(paint) => {
                    add_polygons(bundle, polygons, paint, bbox, span, resolution);
                },
                None => {
                    assert(bundle@.primitives =~= old(bundle)@.primitives + want);
                },
            }
        },
    }
}

/// Appends the primitives of the features of one layer to the bundle.
fn add_layer(
    bundle: &mut RenderBundle,
    style: &VectorTileStyle,
    layer: &MvtLayer,
    bbox: Rect,
    span: i64,
    resolution: i64,
)
    requires
        placement_fits(bbox, span),
    ensures
        final(bundle)@.primitives == old(bundle)@.primitives + features_primitives(
            style,
            layer.name@,
            layer.features@,
            bbox,
            span,
            resolution,
        ),
        final(bundle)@.clip_area == old(bundle)@.clip_area,
{
    let ghost features = layer.features@;
    let mut k: usize = 0;
    assert(features.take(0) =~= Seq::<MvtFeature>::empty());
    assert(bundle@.primitives =~= old(bundle)@.primitives + features_primitives(
        style,
        layer.name@,
        features.take(0),
        bbox,
        span,
        resolution,
    ));
    while k < layer.features.len()
        invariant
            k <= features.len(),
            features == layer.features@,
            placement_fits(bbox, span),
            bundle@.primitives == old(bundle)@.primitives + features_primitives(
                style,
                layer.name@,
                features.take(k as int),
                bbox,
                span,
                resolution,
            ),
            bundle@.clip_area == old(bundle)@.clip_area,
        decreases features.len() - k,
    {
        add_feature(bundle, style, &layer.name, &layer.features[k], bbox, span, resolution);
        proof {
            assert(features.take(k + 1).drop_last() =~= features.take(k as int));
            assert(features.take(k + 1).last() == features[k as int]);
            assert(bundle@.primitives =~= old(bundle)@.primitives + features_primitives(
                style,
                layer.name@,
                features.take(k + 1),
                bbox,
                span,
                resolution,
            ));
        }
        k += 1;
    }
    assert(features.take(k as int) =~= features);
}

impl VtProcessor {
    /// Prepares a decoded tile for drawing: sets the clip region to the
    /// tile's bounding box, and appends the background and then the tile's
    /// features to the bundle. Fails, and leaves the bundle as it was, where
    /// the tile scheme does not define the level of `index`.
    pub fn prepare(
        mvt_tile: &MvtTile,
        bundle: &mut RenderBundle,
        index: TileIndex,
        style: &VectorTileStyle,
        tile_scheme: &TileScheme,
    ) -> (r: Result<(), GalileoError>)
        ensures
            !tile_scheme@.has_level(index.z) ==> r == Err::<(), GalileoError>(
                GalileoError::Configuration,
            ) && final(bundle)@ == old(bundle)@,
            tile_scheme@.has_level(index.z) ==> r.is_ok() && final(bundle)@ == prepared(
                old(bundle)@,
                mvt_tile,
                style,
                tile_scheme@,
                index,
            ),
    {
        let bbox: Rect = match tile_scheme.tile_bbox(index) {
            Some(bbox) => bbox,
            None => {
                return Err(GalileoError::Configuration);
            },
        };
        let lod_resolution: i64 = match tile_scheme.lod_resolution(index.z) {
            Some(resolution) => resolution,
            None => {
                return Err(GalileoError::Configuration);
            },
        };
        let tile_resolution: i64 = match tile_scheme.tile_resolution(index.z) {
            Some(resolution) => resolution,
            None => {
                return Err(GalileoError::Configuration);
            },
        };
        proof {
            lemma_tile_span_bounds(tile_scheme@, index.z);
            lemma_bbox_bounds(tile_scheme@, index);
        }
        bundle.clip_area(bounds_polygon(bbox));
        bundle.add_polygon(
            bounds_polygon(bbox),
            PolygonPaint { color: style.background },
            lod_resolution,
        );
        let ghost base = bundle@.primitives;
        let ghost layers = mvt_tile.layers@;
        let mut k: usize = 0;
        assert(layers.take(0) =~= Seq::<MvtLayer>::empty());
        assert(bundle@.primitives =~= base + layers_primitives(
            style,
            layers.take(0),
            bbox,
            tile_resolution,
            lod_resolution,
        ));
        while k < mvt_tile.layers.len()
            invariant
                k <= layers.len(),
                layers == mvt_tile.layers@,
                placement_fits(bbox, tile_resolution),
                bundle@.primitives == base + layers_primitives(
                    style,
                    layers.take(k as int),
                    bbox,
                    tile_resolution,
                    lod_resolution,
                ),
                bundle@.clip_area == Some(bounds_view(bbox)),
            decreases layers.len() - k,
        {
            add_layer(bundle, style, &mvt_tile.layers[k], bbox, tile_resolution, lod_resolution);
            proof {
                assert(layers.take(k + 1).drop_last() =~= layers.take(k as int));
                assert(layers.take(k + 1).last() == layers[k as int]);
                assert(bundle@.primitives =~= base + layers_primitives(
                    style,
                    layers.take(k + 1),
                    bbox,
                    tile_resolution,
                    lod_resolution,
                ));
            }
            k += 1;
        }
        proof {
            assert(layers.take(k as int) =~= layers);
            assert(bundle@.primitives =~= old(bundle)@.primitives + tile_primitives(
                mvt_tile,
                style,
                bbox,
                tile_resolution,
                lod_resolution,
            ));
        }
        Ok(())
    }

    /// Where in the world the point `p_in` of a tile lies, for a tile whose
    /// bounding box is `tile_bbox` and whose side is `tile_resolution` map
    /// units long. The tile's rows run downwards while the world's `y` runs
    /// upwards.
    pub fn transform_point(p_in: &MvtPoint, tile_bbox: Rect, tile_resolution: i64) -> (p: Point3d)
        requires
            placement_fits(tile_bbox, tile_resolution),
        ensures
            p == transform_spec(*p_in, tile_bbox, tile_resolution),
            p.x == tile_bbox.x_min + p_in.x * tile_resolution,
            p.y == tile_bbox.y_max - p_in.y * tile_resolution,
            p.z == 0,
    {
        proof {
            assert(-0x8000_0000 * 0x4000_0000 <= p_in.x * tile_resolution <= 0x8000_0000
                * 0x4000_0000) by (nonlinear_arith)
                requires
                    -0x8000_0000 <= p_in.x < 0x8000_0000,
                    1 <= tile_resolution <= 0x4000_0000,
            ;
            assert(-0x8000_0000 * 0x4000_0000 <= p_in.y * tile_resolution <= 0x8000_0000
                * 0x4000_0000) by (nonlinear_arith)
                requires
                    -0x8000_0000 <= p_in.y < 0x8000_0000,
                    1 <= tile_resolution <= 0x4000_0000,
            ;
        }
        let x: i64 = tile_bbox.x_min + to_i64(p_in.x).unwrap() * tile_resolution;
        let y: i64 = tile_bbox.y_max - to_i64(p_in.y).unwrap() * tile_resolution;
        Point3d::new(x, y, 0)
    }

    /// The paint for the lines of `feature`: from the first rule of the
    /// style that applies to the feature, and from the default symbol where
    /// none applies. Nothing where the symbol so chosen has no line symbol.
    pub fn get_line_symbol(style: &VectorTileStyle, layer_name: &String, feature: &MvtFeature) -> (r:
        Option<LinePaint>)
        ensures
            r == line_paint(style.symbol_for(layer_name@, feature).line),
    {
        let symbol: Option<LineSymbol> = match style.get_style_rule(layer_name, feature) {
            Some(rule) => rule.symbol.line,
            None => style.default_symbol.line,
        };
        match symbol {
            Some(s) => Some(
                LinePaint {
                    width: s.width,
                    color: s.stroke_color,
                    offset: 0,
                    line_cap: LineCap::Butt,
                },
            ),
            None => None,
        }
    }

    /// The paint for the polygons of `feature`: from the first rule of the
    /// style that applies to the feature, and from the default symbol where
    /// none applies. Nothing where the symbol so chosen has no polygon
    /// symbol.
    pub fn get_polygon_symbol(
        style: &VectorTileStyle,
        layer_name: &String,
        feature: &MvtFeature,
    ) -> (r: Option<PolygonPaint>)
        ensures
            r == polygon_paint(style.symbol_for(layer_name@, feature).polygon),
    {
        let symbol: Option<PolygonSymbol> = match style.get_style_rule(layer_name, feature) {
            Some(rule) => rule.symbol.polygon,
            None => style.default_symbol.polygon,
        };
        match symbol {
            Some(s) => Some(PolygonPaint { color: s.fill_color }),
            None => None,
        }
    }
}

impl DataProcessor for VtProcessor {
    type Input = Result<MvtTile, GalileoError>;

    type Output = (RenderBundle, MvtTile);

    type Context = VectorTileDecodeContext;

    /// Prepares the outcome of decoding a tile for drawing. A tile that
    /// could not be decoded, or whose level the tile scheme does not define,
    /// fails as a whole. Otherwise the result is the bundle of the context
    /// with the tile prepared into it, and the tile itself.
    fn process(&self, input: Result<MvtTile, GalileoError>, context: VectorTileDecodeContext) -> (r:
        Result<(RenderBundle, MvtTile), GalileoError>)
        ensures
            input is Err ==> r is Err && r->Err_0 == input->Err_0,
            input is Ok && !context.tile_scheme@.has_level(context.index.z) ==> r is Err && r->Err_0
                == GalileoError::Configuration,
            input is Ok && context.tile_scheme@.has_level(context.index.z) ==> r is Ok && r->Ok_0.1
                == input->Ok_0 && r->Ok_0.0@ == prepared(
                context.bundle@,
                &input->Ok_0,
                &context.style,
                context.tile_scheme@,
                context.index,
            ),
    {
        let mvt_tile: MvtTile = match input {
            Ok(tile) => tile,
            Err(e) => {
                return Err(e);
            },
        };
        let VectorTileDecodeContext { mut bundle, index, style, tile_scheme } = context;
        match VtProcessor::prepare(&mvt_tile, &mut bundle, index, &style, &tile_scheme) {
            Ok(()) => Ok((bundle, mvt_tile)),
            Err(e) => Err(e),
        }
    }
}

} // verus!
