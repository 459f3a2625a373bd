use vstd::prelude::*;
use crate::rect::Rect;
use crate::vec2d::Vec2D;

verus! {

/// An anchor within a frame, with padding away from the anchored edges.
#[derive(Clone, Copy, Debug, PartialEq, Eq, Structural)]
pub enum Position {
    Center,
    Left(i32),
    Right(i32),
    Bot(i32),
    Top(i32),
    LeftBot(i32, i32),
    LeftTop(i32, i32),
    RightBot(i32, i32),
    RightTop(i32, i32),
}

impl Position {
    /// The lower-left corner of a box of the given size anchored inside the
    /// frame, as mathematical integers.
    pub open spec fn spec_pos(self, frame: Rect, size: Vec2D) -> (int, int) {
        match self {
            Position::Center => (frame.width / 2 - size.x / 2, frame.height / 2 - size.y / 2),
            Position::Left(pad) => (pad as int, frame.height / 2 - size.y / 2),
            Position::Right(pad) => (frame.width - size.x - pad, frame.height / 2 - size.y / 2),
            Position::Bot(pad) => (frame.width / 2 - size.x / 2, pad as int),
            Position::Top(pad) => (frame.width / 2 - size.x / 2, frame.height - size.y - pad),
            Position::LeftBot(l, b) => (l as int, b as int),
            Position::LeftTop(l, t) => (l as int, frame.height - size.y - t),
            Position::RightBot(r, b) => (frame.width - size.x - r, b as int),
            Position::RightTop(r, t) => (frame.width - size.x - r, frame.height - size.y - t),
        }
    }

    /// Both coordinates of `spec_pos` stay within the machine integer range.
    pub open spec fn fits(self, frame: Rect, size: Vec2D) -> bool {
        &&& i32::MIN <= self.spec_pos(frame, size).0 <= i32::MAX
        &&& i32::MIN <= self.spec_pos(frame, size).1 <= i32::MAX
    }

    /// Places a box of the given size inside the frame, anchored as `self`
    /// says, and returns the box as a rectangle.
    pub fn rect(self, frame: Rect, size: Vec2D) -> (r: Rect)
        requires
            frame.width >= 0,
            frame.height >= 0,
            size.x >= 0,
            size.y >= 0,
            self.fits(frame, size),
        ensures
            r.x == self.spec_pos(frame, size).0,
            r.y == self.spec_pos(frame, size).1,
            r.width == size.x,
            r.height == size.y,
    {
        let pos: Vec2D = match self {
            Position::Center => Vec2D::new(frame.width / 2 - size.x / 2, frame.height / 2 - size.y / 2),
            Position::Left(pad) => Vec2D::new(pad, frame.height / 2 - size.y / 2),
            Position::Right(pad) => Vec2D::new(frame.width - size.x - pad, frame.height / 2 - size.y / 2),
            Position::Bot(pad) => Vec2D::new(frame.width / 2 - size.x / 2, pad),
            Position::Top(pad) => Vec2D::new(frame.width / 2 - size.x / 2, frame.height - size.y - pad),
            Position::LeftBot(l, b) => Vec2D::new(l, b),
            Position::LeftTop(l, t) => Vec2D::new(l, frame.height - size.y - t),
            Position::RightBot(r, b) => Vec2D::new(frame.width - size.x - r, b),
            Position::RightTop(r, t) => Vec2D::new(frame.width - size.x - r, frame.height - size.y - t),
        };

        Rect::new(pos, size)
    }
}

impl Position {
    /// Places a box like [`Position::rect`], but instead of demanding that
    /// the placement is representable, answers `None` when it is not (or
    /// when a frame or box dimension is negative).
    pub fn checked_rect(self, frame: Rect, size: Vec2D) -> (r: Option<Rect>)
        ensures
            r is Some <==> frame.width >= 0 && frame.height >= 0 && size.x >= 0 && size.y >= 0
                && self.fits(frame, size),
            r matches Some(rect) ==> {
                &&& rect.x == self.spec_pos(frame, size).0
                &&& rect.y == self.spec_pos(frame, size).1
                &&& rect.width == size.x
                &&& rect.height == size.y
            },
    {
        if frame.width < 0 || frame.height < 0 || size.x < 0 || size.y < 0 {
            return None;
        }

        let fw = frame.width as i64;
        let fh = frame.height as i64;
        let sx = size.x as i64;
        let sy = size.y as i64;

        let (px, py): (i64, i64) = match self {
            Position::Center => (fw / 2 - sx / 2, fh / 2 - sy / 2),
            Position::Left(pad) => (pad as i64, fh / 2 - sy / 2),
            Position::Right(pad) => (fw - sx - pad as i64, fh / 2 - sy / 2),
            Position::Bot(pad) => (fw / 2 - sx / 2, pad as i64),
            Position::Top(pad) => (fw / 2 - sx / 2, fh - sy - pad as i64),
            Position::LeftBot(l, b) => (l as i64, b as i64),
            Position::LeftTop(l, t) => (l as i64, fh - sy - t as i64),
            Position::RightBot(r, b) => (fw - sx - r as i64, b as i64),
            Position::RightTop(r, t) => (fw - sx - r as i64, fh - sy - t as i64),
        };

        if px < i32::MIN as i64 || px > i32::MAX as i64 || py < i32::MIN as i64 || py
            > i32::MAX as i64 {
            return None;
        }

        Some(Rect { x: px as i32, y: py as i32, width: size.x, height: size.y })
    }
}

impl Default for Position {
    /// The default placement is centered.
    fn default() -> (p: Position)
        ensures
            p == Position::Center,
    {
        Position::Center
    }
}

} // verus!
