use vstd::prelude::*;
use crate::draw::{Draw, DrawParameters};
use crate::position::Position;
use crate::render::Render;

verus! {

/// Draws the wrapped element anchored at a fixed position of the frame.
pub struct Pos<U> {
    pub position: Position,
    pub ui: U,
}

impl<U: Draw> Pos<U> {
    pub fn new(position: Position, ui: U) -> (p: Pos<U>)
        ensures
            p.position == position,
            p.ui == ui,
    {
        Pos { position, ui }
    }

    pub fn center(ui: U) -> (p: Pos<U>)
        ensures
            p.position == Position::Center,
            p.ui == ui,
    {
        Pos::new(Position::Center, ui)
    }

    pub fn left(pad: i32, ui: U) -> (p: Pos<U>)
        ensures
            p.position == Position::Left(pad),
            p.ui == ui,
    {
        Pos::new(Position::Left(pad), ui)
    }

    pub fn right(pad: i32, ui: U) -> (p: Pos<U>)
        ensures
            p.position == Position::Right(pad),
            p.ui == ui,
    {
        Pos::new(Position::Right(pad), ui)
    }

    pub fn bot(pad: i32, ui: U) -> (p: Pos<U>)
        ensures
            p.position == Position::Bot(pad),
            p.ui == ui,
    {
        Pos::new(Position::Bot(pad), ui)
    }

    pub fn top(pad: i32, ui: U) -> (p: Pos<U>)
        ensures
            p.position == Position::Top(pad),
            p.ui == ui,
    {
        Pos::new(Position::Top(pad), ui)
    }
}

impl<U: Draw> Draw for Pos<U> {
    fn draw(&self, render: &mut Render, params: DrawParameters) {
        let inherited = DrawParameters { position: self.position, ..params };
        self.ui.draw(render, inherited);
    }
}

} // verus!
