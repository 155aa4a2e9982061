use vstd::prelude::*;
use crate::numeric::{cast_to_i32, is_zero};

verus! {

/// The width and height of something flat.
#[derive(Clone, Copy, Debug, PartialEq, Eq, Default)]
pub struct Size<Num> {
    width: Num,
    height: Num,
}

impl<Num> View for Size<Num> {
    type V = (Num, Num);

    /// The width and the height.
    closed spec fn view(&self) -> (Num, Num) {
        (self.width, self.height)
    }
}

impl<Num: Copy> Size<Num> {
    pub fn new(width: Num, height: Num) -> (s: Size<Num>)
        ensures
            s@ == (width, height),
    {
        Size { width, height }
    }

    pub fn width(&self) -> (w: Num)
        ensures
            w == self@.0,
    {
        self.width
    }

    pub fn height(&self) -> (h: Num)
        ensures
            h == self@.1,
    {
        self.height
    }
}

/// Half of a number, rounded towards zero.
pub open spec fn half(v: i64) -> int {
    if v >= 0 {
        v / 2
    } else {
        -((-v) / 2)
    }
}

impl Size<i64> {
    /// Half of the width, rounded towards zero.
    pub fn half_width(&self) -> (w: i64)
        ensures
            w == half(self@.0),
    {
        self.width / 2
    }

    /// Half of the height, rounded towards zero.
    pub fn half_height(&self) -> (h: i64)
        ensures
            h == half(self@.1),
    {
        self.height / 2
    }

    /// Whether the size covers no area: its width or its height is zero.
    pub fn is_zero(&self) -> (b: bool)
        ensures
            b == (self@.0 == 0 || self@.1 == 0),
    {
        is_zero(self.width) || is_zero(self.height)
    }

    /// The same size in 32-bit numbers, where both the width and the
    /// height fit in them.
    pub fn cast(&self) -> (r: Option<Size<i32>>)
        ensures
            r.is_some() <==> -0x8000_0000 <= self@.0 <= 0x7fff_ffff && -0x8000_0000 <= self@.1
                <= 0x7fff_ffff,
            r.is_some() ==> r.unwrap()@.0 == self@.0 && r.unwrap()@.1 == self@.1,
    {
        match cast_to_i32(self.width) {
            None => None,
            Some(width) => match cast_to_i32(self.height) {
                None => None,
                Some(height) => Some(Size { width, height }),
            },
        }
    }
}

} // verus!
