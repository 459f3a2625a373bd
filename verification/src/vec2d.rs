use vstd::prelude::*;

verus! {

/// A two-component integer vector, used for pixel positions and sizes.
#[derive(Clone, Copy, Debug, PartialEq, Eq, Structural)]
pub struct Vec2D {
    pub x: i32,
    pub y: i32,
}

impl Vec2D {
    pub fn new(x: i32, y: i32) -> (v: Vec2D)
        ensures
            v == (Vec2D { x, y }),
    {
        Vec2D { x, y }
    }

    pub fn into_inner(self) -> (r: (i32, i32))
        ensures
            r == (self.x, self.y),
    {
        (self.x, self.y)
    }

    pub fn width(&self) -> (r: i32)
        ensures
            r == self.x,
    {
        self.x
    }

    pub fn height(&self) -> (r: i32)
        ensures
            r == self.y,
    {
        self.y
    }

    /// Both components halved, rounding toward zero (like the division
    /// operator: `-3` halves to `-1`).
    pub fn half(self) -> (r: Vec2D)
        ensures
            r.x == half_toward_zero(self.x as int),
            r.y == half_toward_zero(self.y as int),
    {
        Vec2D { x: self.x / 2, y: self.y / 2 }
    }
}

/// Half of `x`, rounded toward zero.
pub open spec fn half_toward_zero(x: int) -> int {
    if x >= 0 {
        x / 2
    } else {
        -((-x) / 2)
    }
}

} // verus!
