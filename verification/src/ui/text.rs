use vstd::prelude::*;
use crate::draw::{Draw, DrawParameters};
use crate::render::Render;

verus! {

/// Draws a piece of text with the inherited color, placement and style.  A
/// text whose layout or placement the renderer cannot represent is not
/// drawn, as an image with an unrepresentable placement is not.
pub struct Text {
    pub chars: Vec<char>,
}

impl Text {
    pub fn new(chars: Vec<char>) -> (t: Text)
        ensures
            t.chars@ == chars@,
    {
        Text { chars }
    }
}

impl Draw for Text {
    fn draw(&self, render: &mut Render, params: DrawParameters) {
        if render.can_print(&self.chars, &params) {
            render.print(&self.chars, &params);
        }
    }
}

} // verus!
