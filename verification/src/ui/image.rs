use vstd::prelude::*;
use crate::draw::{Draw, DrawParameters};
use crate::render::Render;
use crate::texture::Texture;

verus! {

/// Draws a loaded texture at its own size.  Decoding image bytes is the
/// caller's business; the image only keeps the resulting texture.
pub struct Image {
    pub texture: Texture,
}

impl Image {
    pub fn new(texture: Texture) -> (i: Image)
        ensures
            i.texture == texture,
    {
        Image { texture }
    }
}

impl Draw for Image {
    /// One textured quad over the image's placement.  A placement that the
    /// device coordinates cannot represent is not drawn.
    fn draw(&self, render: &mut Render, params: DrawParameters) {
        let size = render.size();
        let frame = crate::rect::Rect { x: 0, y: 0, width: size.x, height: size.y };

        match params.position.checked_rect(frame, self.texture.size()) {
            Some(rect) => {
                render.set_color(params.color);
                render.set_texture(&self.texture);
                render.draw_rect(rect);
            },
            None => {},
        }
    }
}

} // verus!
