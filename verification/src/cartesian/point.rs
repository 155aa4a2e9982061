use vstd::prelude::*;

verus! {

/// A position that has planar coordinates.
pub trait CartesianPoint2d {
    /// The horizontal coordinate, as a mathematical integer.
    spec fn x_spec(&self) -> int;

    /// The vertical coordinate, as a mathematical integer.
    spec fn y_spec(&self) -> int;

    fn x(&self) -> (r: i64)
        ensures
            r == self.x_spec(),
    ;

    fn y(&self) -> (r: i64)
        ensures
            r == self.y_spec(),
    ;
}

/// A point of the plane.
#[derive(Clone, Copy, Debug, PartialEq, Eq, Structural)]
pub struct Point2d {
    pub x: i64,
    pub y: i64,
}

/// A point of space.
#[derive(Clone, Copy, Debug, PartialEq, Eq, Structural)]
pub struct Point3d {
    pub x: i64,
    pub y: i64,
    pub z: i64,
}

impl Point2d {
    pub fn new(x: i64, y: i64) -> (p: Point2d)
        ensures
            p == (Point2d { x, y }),
    {
        Point2d { x, y }
    }
}

impl Point3d {
    pub fn new(x: i64, y: i64, z: i64) -> (p: Point3d)
        ensures
            p == (Point3d { x, y, z }),
    {
        Point3d { x, y, z }
    }
}

impl CartesianPoint2d for Point2d {
    open spec fn x_spec(&self) -> int {
        self.x as int
    }

    open spec fn y_spec(&self) -> int {
        self.y as int
    }

    fn x(&self) -> (r: i64) {
        self.x
    }

    fn y(&self) -> (r: i64) {
        self.y
    }
}

impl CartesianPoint2d for Point3d {
    open spec fn x_spec(&self) -> int {
        self.x as int
    }

    open spec fn y_spec(&self) -> int {
        self.y as int
    }

    fn x(&self) -> (r: i64) {
        self.x
    }

    fn y(&self) -> (r: i64) {
        self.y
    }
}

} // verus!
