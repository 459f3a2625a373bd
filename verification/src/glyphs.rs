use vstd::prelude::*;
use crate::font::GlyphSize;
use crate::vec2d::Vec2D;

verus! {

/// One placed glyph: its width data, its horizontal offset within the laid
/// out text, and its character code.
#[derive(Clone, Copy, Debug, PartialEq, Eq, Structural)]
pub struct Glyph {
    pub size: GlyphSize,
    pub delta_x: i32,
    pub code: u32,
}

impl Glyph {
    pub fn new(size: GlyphSize, delta_x: i32, code: u32) -> (g: Glyph)
        ensures
            g == (Glyph { size, delta_x, code }),
    {
        Glyph { size, delta_x, code }
    }
}

/// One element of laid out text: a printable glyph or a line break.
#[derive(Clone, Copy, Debug, PartialEq, Eq, Structural)]
pub enum Char {
    Print(Glyph),
    NewLine,
}

/// Laid out text: the placed glyphs and the bounding size of the block.
pub struct Glyphs {
    pub chars: Vec<Char>,
    pub size: Vec2D,
}

impl Glyphs {
    pub fn new(chars: Vec<Char>, size: Vec2D) -> (g: Glyphs)
        ensures
            g.chars@ == chars@,
            g.size == size,
    {
        Glyphs { chars, size }
    }

    pub fn size(&self) -> (s: Vec2D)
        ensures
            s == self.size,
    {
        self.size
    }

    pub fn chars(&self) -> (r: &Vec<Char>)
        ensures
            r@ == self.chars@,
    {
        &self.chars
    }

    pub fn into_inner(self) -> (r: Vec<Char>)
        ensures
            r@ == self.chars@,
    {
        self.chars
    }
}

} // verus!
