use vstd::prelude::*;
use crate::cartesian::contour::Contour;
use crate::cartesian::hit_test::{any_contains, any_polygon_contains};
use crate::cartesian::point::CartesianPoint2d;
use crate::cartesian::polygon::Polygon;

verus! {

/// A position inside a tile, in the tile's own raster: `x` grows to the
/// right and `y` grows downwards.
#[derive(Clone, Copy, Debug, PartialEq, Eq, Structural)]
pub struct MvtPoint {
    pub x: i32,
    pub y: i32,
}

impl MvtPoint {
    pub fn new(x: i32, y: i32) -> (p: MvtPoint)
        ensures
            p == (MvtPoint { x, y }),
    {
        MvtPoint { x, y }
    }
}

impl CartesianPoint2d for MvtPoint {
    open spec fn x_spec(&self) -> int {
        self.x as int
    }

    open spec fn y_spec(&self) -> int {
        self.y as int
    }

    fn x(&self) -> (r: i64) {
        self.x as i64
    }

    fn y(&self) -> (r: i64) {
        self.y as i64
    }
}

/// The value of an attribute of a feature.
#[derive(Clone, Debug, PartialEq, Eq)]
pub enum MvtValue {
    String(String),
    Int64(i64),
    Uint64(u64),
    Bool(bool),
    Unknown,
}

/// The value of an attribute, as a mathematical value.
pub enum MvtValueView {
    String(Seq<char>),
    Int64(i64),
    Uint64(u64),
    Bool(bool),
    Unknown,
}

impl View for MvtValue {
    type V = MvtValueView;

    open spec fn view(&self) -> MvtValueView {
        match self {
            MvtValue::String(s) => MvtValueView::String(s@),
            MvtValue::Int64(v) => MvtValueView::Int64(*v),
            MvtValue::Uint64(v) => MvtValueView::Uint64(*v),
            MvtValue::Bool(v) => MvtValueView::Bool(*v),
            MvtValue::Unknown => MvtValueView::Unknown,
        }
    }
}

impl MvtValue {
    /// Whether this value is the known value `wanted`: of the same type
    /// and equal. An unknown value is equal to nothing.
    pub open spec fn is_value(&self, wanted: MvtValueView) -> bool {
        self@ == wanted && self@ != MvtValueView::Unknown
    }

    /// Whether this value is the known value `wanted`.
    pub fn same_as(&self, wanted: &MvtValue) -> (b: bool)
        ensures
            b == self.is_value(wanted@),
    {
        match (self, wanted) {
            (MvtValue::String(a), MvtValue::String(b)) => {
                let equal: bool = *a == *b;
                equal
            },
            (MvtValue::Int64(a), MvtValue::Int64(b)) => *a == *b,
            (MvtValue::Uint64(a), MvtValue::Uint64(b)) => *a == *b,
            (MvtValue::Bool(a), MvtValue::Bool(b)) => *a == *b,
            _ => false,
        }
    }
}

/// The shapes of a feature, all of one kind.
#[derive(Clone, Debug, PartialEq, Eq)]
pub enum MvtGeometry {
    Point(Vec<MvtPoint>),
    LineString(Vec<Contour<MvtPoint>>),
    Polygon(Vec<Polygon<MvtPoint>>),
}

/// One feature of a layer: its shapes and its attributes.
#[derive(Clone, Debug, PartialEq, Eq)]
pub struct MvtFeature {
    pub id: Option<u64>,
    pub properties: Vec<(String, MvtValue)>,
    pub geometry: MvtGeometry,
}

/// Whether `properties` holds an attribute named `key` with the known value
/// `value`.
pub open spec fn has_property(
    properties: Seq<(String, MvtValue)>,
    key: Seq<char>,
    value: MvtValueView,
) -> bool {
    exists|i: int|
        0 <= i < properties.len() && (#[trigger] properties[i]).0@ == key && properties[i].1.is_value(
            value,
        )
}

/// Whether the point lies inside one of the polygons of the geometry.
/// Points and lines have no inside.
pub open spec fn geometry_contains(geometry: MvtGeometry, px: int, py: int) -> bool {
    match geometry {
        MvtGeometry::Polygon(polygons) => any_contains(polygons@, px, py),
        _ => false,
    }
}

impl MvtFeature {
    /// Whether `point` lies inside one of the polygons of the feature. A
    /// feature of points or of lines has no inside.
    pub fn contains_point(&self, point: &MvtPoint) -> (b: bool)
        ensures
            b == geometry_contains(self.geometry, point.x as int, point.y as int),
    {
        match &self.geometry {
            MvtGeometry::Polygon(polygons) => any_polygon_contains(polygons, point),
            _ => false,
        }
    }


    /// Whether the feature has an attribute named `key` with the known
    /// value `value`.
    pub fn has_property(&self, key: &String, value: &MvtValue) -> (b: bool)
        ensures
            b == has_property(self.properties@, key@, value@),
    {
        let mut k: usize = 0;
        while k < self.properties.len()
            invariant
                k <= self.properties@.len(),
                forall|i: int|
                    0 <= i < k ==> !((#[trigger] self.properties@[i]).0@ == key@
                        && self.properties@[i].1.is_value(value@)),
            decreases self.properties@.len() - k,
        {
            let name_matches: bool = self.properties[k].0 == *key;
            if name_matches && self.properties[k].1.same_as(value) {
                return true;
            }
            k += 1;
        }
        false
    }
}

/// A named group of features.
#[derive(Clone, Debug, PartialEq, Eq)]
pub struct MvtLayer {
    pub name: String,
    pub features: Vec<MvtFeature>,
    pub size: u32,
}

/// A decoded tile: its layers in paint order.
#[derive(Clone, Debug, PartialEq, Eq)]
pub struct MvtTile {
    pub layers: Vec<MvtLayer>,
}

} // verus!
