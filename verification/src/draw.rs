use vstd::prelude::*;
use crate::color::Color;
use crate::position::Position;
use crate::rect::Rect;
use crate::render::Render;
use crate::vec2d::Vec2D;

verus! {

/// A drop shadow under drawn text: its offset and its color.
#[derive(Clone, Copy, Debug, PartialEq, Eq, Structural)]
pub struct FontShadow {
    pub delta: Vec2D,
    pub color: Color,
}

/// How text is set: evenly spaced or with per-glyph widths, and with an
/// optional shadow.
#[derive(Clone, Copy, Debug, PartialEq, Eq, Structural)]
pub struct FontStyle {
    pub monospaced: bool,
    pub shadow: Option<FontShadow>,
}

impl FontStyle {
    pub fn new() -> (s: FontStyle)
        ensures
            s == (FontStyle { monospaced: false, shadow: None }),
    {
        FontStyle { monospaced: false, shadow: None }
    }

    pub fn monospaced(self) -> (s: FontStyle)
        ensures
            s == (FontStyle { monospaced: true, ..self }),
    {
        FontStyle { monospaced: true, ..self }
    }

    pub fn shadow(self, delta: Vec2D, color: Color) -> (s: FontStyle)
        ensures
            s == (FontStyle { shadow: Some(FontShadow { delta, color }), ..self }),
    {
        FontStyle { shadow: Some(FontShadow { delta, color }), ..self }
    }
}

impl Default for FontStyle {
    /// The default style: proportional, without a shadow.
    fn default() -> (s: FontStyle)
        ensures
            s == (FontStyle { monospaced: false, shadow: None }),
    {
        FontStyle::new()
    }
}

/// The inherited parameters a drawable renders itself with: the color, the
/// anchoring inside the frame, the frame itself, and the text style.
#[derive(Clone, Copy, Debug, PartialEq, Eq, Structural)]
pub struct DrawParameters {
    pub color: Color,
    pub position: Position,
    pub frame: Rect,
    pub font_style: FontStyle,
}

impl DrawParameters {
    /// Where a box of the given size lands when anchored inside the frame.
    pub fn render_rect(&self, size: Vec2D) -> (r: Rect)
        requires
            self.frame.width >= 0,
            self.frame.height >= 0,
            size.x >= 0,
            size.y >= 0,
            self.position.fits(self.frame, size),
        ensures
            r.x == self.position.spec_pos(self.frame, size).0,
            r.y == self.position.spec_pos(self.frame, size).1,
            r.width == size.x,
            r.height == size.y,
    {
        self.position.rect(self.frame, size)
    }
}

/// Something that can render itself into the given renderer with inherited
/// parameters, producing GPU draw commands and nothing else.
pub trait Draw {
    fn draw(&self, render: &mut Render, params: DrawParameters)
        requires
            old(render).wf(),
        ensures
            final(render).wf(),
    ;
}

impl Draw for Rect {
    /// A bare rectangle: a flat, untextured quad in the inherited color.
    fn draw(&self, render: &mut Render, params: DrawParameters) {
        render.set_color(params.color);
        render.unset_texture();
        render.draw_rect(*self);
    }
}

} // verus!
