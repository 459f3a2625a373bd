use vstd::prelude::*;
use crate::vec2d::Vec2D;

verus! {

/// An axis-aligned rectangle in integer device coordinates, given by its
/// lower-left corner and its size.
#[derive(Clone, Copy, Debug, PartialEq, Eq, Structural)]
pub struct Rect {
    pub x: i32,
    pub y: i32,
    pub width: i32,
    pub height: i32,
}

impl Rect {
    /// A rectangle whose size is not negative and whose far corner still fits
    /// the coordinate type.
    pub open spec fn wf(self) -> bool {
        &&& self.width >= 0
        &&& self.height >= 0
        &&& self.x + self.width <= i32::MAX
        &&& self.y + self.height <= i32::MAX
    }

    pub fn new(pos: Vec2D, size: Vec2D) -> (r: Rect)
        ensures
            r == (Rect { x: pos.x, y: pos.y, width: size.x, height: size.y }),
    {
        Rect { x: pos.x, y: pos.y, width: size.x, height: size.y }
    }

    pub fn pos(&self) -> (p: Vec2D)
        ensures
            p == (Vec2D { x: self.x, y: self.y }),
    {
        Vec2D { x: self.x, y: self.y }
    }

    pub fn size(&self) -> (s: Vec2D)
        ensures
            s == (Vec2D { x: self.width, y: self.height }),
    {
        Vec2D { x: self.width, y: self.height }
    }

    pub fn left(&self) -> (r: i32)
        ensures
            r == self.x,
    {
        self.x
    }

    pub fn right(&self) -> (r: i32)
        requires
            self.wf(),
        ensures
            r == self.x + self.width,
    {
        self.x + self.width
    }

    pub fn bot(&self) -> (r: i32)
        ensures
            r == self.y,
    {
        self.y
    }

    pub fn top(&self) -> (r: i32)
        requires
            self.wf(),
        ensures
            r == self.y + self.height,
    {
        self.y + self.height
    }

    pub fn center(&self) -> (c: Vec2D)
        requires
            self.wf(),
        ensures
            c == (Vec2D { x: (self.x + self.width / 2) as i32, y: (self.y + self.height / 2) as i32 }),
    {
        Vec2D { x: self.x + self.width / 2, y: self.y + self.height / 2 }
    }

    /// Whether the point lies inside the rectangle; the left and bottom edges
    /// belong to it, the right and top edges do not.
    pub fn intersects_point(&self, point: Vec2D) -> (r: bool)
        requires
            self.wf(),
        ensures
            r == (self.x <= point.x < self.x + self.width && self.y <= point.y < self.y + self.height),
    {
        self.x <= point.x && point.x < self.x + self.width
            && self.y <= point.y && point.y < self.y + self.height
    }

    /// Whether the two rectangles overlap.
    pub fn intersects_rect(&self, rhs: Rect) -> (r: bool)
        requires
            self.wf(),
            rhs.wf(),
        ensures
            r == (self.x < rhs.x + rhs.width && rhs.x <= self.x + self.width
                && self.y < rhs.y + rhs.height && rhs.y <= self.y + self.height),
    {
        self.x < rhs.right() && rhs.x <= self.right()
            && self.y < rhs.top() && rhs.y <= self.top()
    }
}

} // verus!
