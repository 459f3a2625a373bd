//! Declarative wrappers that decorate a drawable with a color, a placement,
//! or a text style before handing it to the renderer.

pub mod col;
pub mod font;
pub mod image;
pub mod pos;
pub mod root;
pub mod text;
