use vstd::prelude::*;
use crate::color::Color;
use crate::draw::{Draw, DrawParameters};
use crate::render::Render;

verus! {

/// Draws the wrapped element in a fixed color.
pub struct Col<U> {
    pub color: Color,
    pub ui: U,
}

impl<U: Draw> Col<U> {
    pub fn new(ui: U, color: Color) -> (c: Col<U>)
        ensures
            c.ui == ui,
            c.color == color,
    {
        Col { ui, color }
    }

    pub fn black(ui: U) -> (c: Col<U>)
        ensures
            c.ui == ui,
            c.color == (Color(0, 0, 0, 255)),
    {
        Col::new(ui, Color::black())
    }

    pub fn white(ui: U) -> (c: Col<U>)
        ensures
            c.ui == ui,
            c.color == (Color(255, 255, 255, 255)),
    {
        Col::new(ui, Color::white())
    }

    pub fn red(ui: U) -> (c: Col<U>)
        ensures
            c.ui == ui,
            c.color == (Color(255, 0, 0, 255)),
    {
        Col::new(ui, Color::red())
    }

    pub fn green(ui: U) -> (c: Col<U>)
        ensures
            c.ui == ui,
            c.color == (Color(0, 255, 0, 255)),
    {
        Col::new(ui, Color::green())
    }

    pub fn blue(ui: U) -> (c: Col<U>)
        ensures
            c.ui == ui,
            c.color == (Color(0, 0, 255, 255)),
    {
        Col::new(ui, Color::blue())
    }
}

impl<U: Draw> Draw for Col<U> {
    fn draw(&self, render: &mut Render, params: DrawParameters) {
        let inherited = DrawParameters { color: self.color, ..params };
        self.ui.draw(render, inherited);
    }
}

} // verus!
