use vstd::prelude::*;
use crate::color::Color;
use crate::draw::{Draw, DrawParameters, FontShadow, FontStyle};
use crate::render::Render;
use crate::vec2d::Vec2D;

verus! {

/// Draws the wrapped element with a fixed text style.
pub struct Font<U> {
    pub style: FontStyle,
    pub ui: U,
}

impl<U: Draw> Font<U> {
    pub fn new(ui: U) -> (f: Font<U>)
        ensures
            f.ui == ui,
            f.style == (FontStyle { monospaced: false, shadow: None }),
    {
        Font::from_style(ui, FontStyle { monospaced: false, shadow: None })
    }

    pub fn from_style(ui: U, font: FontStyle) -> (f: Font<U>)
        ensures
            f.ui == ui,
            f.style == font,
    {
        Font { ui, style: font }
    }

    pub fn monospaced(self) -> (f: Font<U>)
        ensures
            f.ui == self.ui,
            f.style == (FontStyle { monospaced: true, ..self.style }),
    {
        Font { style: self.style.monospaced(), ui: self.ui }
    }

    pub fn shadow(self, delta: Vec2D, color: Color) -> (f: Font<U>)
        ensures
            f.ui == self.ui,
            f.style == (FontStyle { shadow: Some(FontShadow { delta, color }), ..self.style }),
    {
        Font { style: self.style.shadow(delta, color), ui: self.ui }
    }
}

impl<U: Draw> Draw for Font<U> {
    fn draw(&self, render: &mut Render, params: DrawParameters) {
        let inherited = DrawParameters { font_style: self.style, ..params };
        self.ui.draw(render, inherited);
    }
}

} // verus!
