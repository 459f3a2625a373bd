use vstd::prelude::*;
use crate::command::Command;
use crate::font::Font;
use crate::glyphs::{Char, Glyphs};
use crate::rect::Rect;
use crate::render::{Render, RenderCache};
use crate::shader_data::UsedShader;
use crate::vec2d::Vec2D;

verus! {

/// The vertical pen position after walking laid out elements from `y0`: only
/// line breaks move it, one line down each.
pub open spec fn walk_y(font: Font, chars: Seq<Char>, y0: int) -> int
    decreases chars.len(),
{
    if chars.len() == 0 {
        y0
    } else {
        match chars.last() {
            Char::NewLine => walk_y(font, chars.drop_last(), y0) - font.line_spacing
                - font.glyph_size_default.y,
            Char::Print(_) => walk_y(font, chars.drop_last(), y0),
        }
    }
}

/// One printing step stays within the machine integer range: a glyph's
/// screen position and atlas arithmetic fit, a line break's new pen position
/// fits.
pub open spec fn print_step_fits(font: Font, ch: Char, x: int, y: int) -> bool {
    match ch {
        Char::Print(g) => {
            &&& i32::MIN <= x + g.delta_x <= i32::MAX
            &&& font.st_fits(g)
        },
        Char::NewLine => {
            &&& i32::MIN <= y - font.line_spacing <= i32::MAX
            &&& i32::MIN <= y - font.line_spacing - font.glyph_size_default.y <= i32::MAX
        },
    }
}

/// Every step of printing the elements stays within the machine integer
/// range.
pub open spec fn print_fits(font: Font, chars: Seq<Char>, x: int, y0: int) -> bool
    decreases chars.len(),
{
    if chars.len() == 0 {
        true
    } else {
        &&& print_fits(font, chars.drop_last(), x, y0)
        &&& print_step_fits(font, chars.last(), x, walk_y(font, chars.drop_last(), y0))
    }
}

/// Walking one more element.
proof fn lemma_walk_take_succ(font: Font, chars: Seq<Char>, y0: int, i: int)
    requires
        0 <= i < chars.len(),
    ensures
        walk_y(font, chars.take(i + 1), y0) == (match chars[i] {
            Char::NewLine => walk_y(font, chars.take(i), y0) - font.line_spacing
                - font.glyph_size_default.y,
            Char::Print(_) => walk_y(font, chars.take(i), y0),
        }),
{
    assert(chars.take(i + 1).drop_last() =~= chars.take(i));
    assert(chars.take(i + 1).last() == chars[i]);
}

/// If the whole walk stays in bounds, so does every prefix.
proof fn lemma_print_fits_prefix(font: Font, chars: Seq<Char>, x: int, y0: int, i: int)
    requires
        0 <= i <= chars.len(),
        print_fits(font, chars, x, y0),
    ensures
        print_fits(font, chars.take(i), x, y0),
    decreases chars.len(),
{
    if i == chars.len() {
        assert(chars.take(i) =~= chars);
    } else {
        assert(chars.drop_last().take(i) =~= chars.take(i));
        lemma_print_fits_prefix(font, chars.drop_last(), x, y0, i);
    }
}

/// The atlas page a glyph code lives on.
pub open spec fn spec_page_of(font: Font, code: u32) -> Option<crate::texture::Texture> {
    font.pages.spec_get((code as int) / (font.glyphs_on_page as int))
}

/// The cached GPU state after walking laid out elements: each printable
/// glyph on a loaded page binds that page and runs one font-role draw; line
/// breaks and glyphs on absent pages change nothing.
pub open spec fn print_cache(font: Font, chars: Seq<Char>, c0: RenderCache) -> RenderCache
    decreases chars.len(),
{
    if chars.len() == 0 {
        c0
    } else {
        let c = print_cache(font, chars.drop_last(), c0);
        match chars.last() {
            Char::Print(g) => match spec_page_of(font, g.code) {
                Some(_) => c.spec_set_texture().spec_font_draw(),
                None => c,
            },
            Char::NewLine => c,
        }
    }
}

/// What walking one element sends from cache state `c` with the pen at
/// `(x, y)`: for a glyph on a loaded page, the page bind, the font role's
/// stale state, and the one quad; nothing otherwise.
pub open spec fn print_step_emits(font: Font, c: RenderCache, y: int, ch: Char, x: int) -> Seq<
    Command,
> {
    match ch {
        Char::Print(g) => match spec_page_of(font, g.code) {
            Some(t) => seq![Command::BindTexture { unit: 0u32, id: t.id }]
                + c.spec_set_texture().font_accept_emits() + seq![
                Command::DrawQuad {
                    rect: font.spec_placing_at(g, x, y),
                    st: Some(font.spec_st_map(g)),
                    flip_v: true,
                },
            ],
            None => Seq::<Command>::empty(),
        },
        Char::NewLine => Seq::<Command>::empty(),
    }
}

/// What the whole walk sends.
pub open spec fn print_emits(
    font: Font,
    chars: Seq<Char>,
    x: int,
    y0: int,
    c0: RenderCache,
) -> Seq<Command>
    decreases chars.len(),
{
    if chars.len() == 0 {
        Seq::empty()
    } else {
        print_emits(font, chars.drop_last(), x, y0, c0) + print_step_emits(
            font,
            print_cache(font, chars.drop_last(), c0),
            walk_y(font, chars.drop_last(), y0),
            chars.last(),
            x,
        )
    }
}

/// Walking one more element, for the cache and the emitted commands.
proof fn lemma_print_take_succ(
    font: Font,
    chars: Seq<Char>,
    x: int,
    y0: int,
    c0: RenderCache,
    i: int,
)
    requires
        0 <= i < chars.len(),
    ensures
        print_cache(font, chars.take(i + 1), c0) == (match chars[i] {
            Char::Print(g) => match spec_page_of(font, g.code) {
                Some(_) => print_cache(font, chars.take(i), c0).spec_set_texture().spec_font_draw(),
                None => print_cache(font, chars.take(i), c0),
            },
            Char::NewLine => print_cache(font, chars.take(i), c0),
        }),
        print_emits(font, chars.take(i + 1), x, y0, c0) == print_emits(font, chars.take(i), x, y0, c0)
            + print_step_emits(
            font,
            print_cache(font, chars.take(i), c0),
            walk_y(font, chars.take(i), y0),
            chars[i],
            x,
        ),
{
    assert(chars.take(i + 1).drop_last() =~= chars.take(i));
    assert(chars.take(i + 1).last() == chars[i]);
}

/// Decides [`print_fits`] at run time.
pub fn check_print_fits(font: &Font, chars: &Vec<Char>, x: i32, y0: i32) -> (r: bool)
    ensures
        r == print_fits(*font, chars@, x as int, y0 as int),
{
    let mut y: i32 = y0;
    let mut i: usize = 0;

    while i < chars.len()
        invariant
            0 <= i <= chars@.len(),
            print_fits(*font, chars@.take(i as int), x as int, y0 as int),
            y == walk_y(*font, chars@.take(i as int), y0 as int),
        decreases chars@.len() - i,
    {
        proof {
            lemma_walk_take_succ(*font, chars@, y0 as int, i as int);
            assert(chars@.take(i as int + 1).drop_last() =~= chars@.take(i as int));
            assert(chars@.take(i as int + 1).last() == chars@[i as int]);
        }

        let ch = chars[i];

        match ch {
            Char::Print(g) => {
                if x.checked_add(g.delta_x).is_none() {
                    proof {
                        if print_fits(*font, chars@, x as int, y0 as int) {
                            lemma_print_fits_prefix(*font, chars@, x as int, y0 as int, i as int + 1);
                            assert(false);
                        }
                    }

                    return false;
                }

                if !font.check_st_fits(g) {
                    proof {
                        if print_fits(*font, chars@, x as int, y0 as int) {
                            lemma_print_fits_prefix(*font, chars@, x as int, y0 as int, i as int + 1);
                            assert(false);
                        }
                    }

                    return false;
                }
            },
            Char::NewLine => {
                let above = match y.checked_sub(font.line_spacing) {
                    Some(v) => v,
                    None => {
                        proof {
                            if print_fits(*font, chars@, x as int, y0 as int) {
                                lemma_print_fits_prefix(
                                    *font,
                                    chars@,
                                    x as int,
                                    y0 as int,
                                    i as int + 1,
                                );
                                assert(false);
                            }
                        }

                        return false;
                    },
                };

                y = match above.checked_sub(font.glyph_size_default.y) {
                    Some(v) => v,
                    None => {
                        proof {
                            if print_fits(*font, chars@, x as int, y0 as int) {
                                lemma_print_fits_prefix(
                                    *font,
                                    chars@,
                                    x as int,
                                    y0 as int,
                                    i as int + 1,
                                );
                                assert(false);
                            }
                        }

                        return false;
                    },
                };
            },
        }

        i = i + 1;
    }

    proof {
        assert(chars@.take(chars@.len() as int) =~= chars@);
    }

    true
}

/// Owns the font and a reusable layout buffer, and turns laid out text into
/// per-glyph draw calls: each printable glyph binds its atlas page and draws
/// one quad with the font role, each line break moves the pen down.
pub struct FontRender {
    pub font: Font,
    pub buf: Option<Vec<Char>>,
}

impl FontRender {
    pub fn new(font: Font) -> (r: FontRender)
        ensures
            r.font == font,
            r.buf matches Some(b) && b@.len() == 0,
    {
        FontRender { font, buf: Some(Vec::new()) }
    }

    /// Lays `text` out into the owned buffer; [`FontRender::print_end`]
    /// returns the buffer when the glyphs are no longer needed.
    pub fn glyphs(&mut self, text: &Vec<char>, monospaced: bool) -> (r: Glyphs)
        requires
            old(self).buf matches Some(b) && old(self).font.layout_fits(
                text@,
                monospaced,
                old(self).font.layout_init(b@),
            ),
        ensures
            final(self).font == old(self).font,
            final(self).buf is None,
            ({
                let fin = old(self).font.spec_layout(
                    text@,
                    monospaced,
                    old(self).font.layout_init(old(self).buf->0@),
                );
                &&& r.chars@ == fin.chars
                &&& r.size.x == fin.size_x
                &&& r.size.y == fin.size_y
            }),
    {
        let buf = match self.buf.take() {
            Some(b) => b,
            None => {
                proof {
                    assert(false);
                }
                Vec::new()
            },
        };

        self.font.glyphs(text, buf, monospaced)
    }

    /// Issues the draws for laid out elements inside `rect`: the pen starts
    /// at the top line of the rectangle, each glyph samples its atlas cell,
    /// and glyphs on pages that were never added are skipped.
    pub fn print(&self, render: &mut Render, chars: &Vec<Char>, rect: Rect)
        requires
            old(render).wf(),
            i32::MIN <= rect.y + rect.height <= i32::MAX,
            i32::MIN <= rect.y + rect.height - self.font.glyph_size_default.y <= i32::MAX,
            print_fits(
                self.font,
                chars@,
                rect.x as int,
                rect.y + rect.height - self.font.glyph_size_default.y,
            ),
        ensures
            final(render).wf(),
            final(render).framebuffers == old(render).framebuffers,
            final(render).viewport == old(render).viewport,
            final(render).size == old(render).size,
            final(render).pixel_size == old(render).pixel_size,
            final(render).font_render == old(render).font_render,
            final(render).spec_cache() == print_cache(
                self.font,
                chars@,
                old(render).spec_cache(),
            ),
            final(render).queue@ == old(render).queue@ + print_emits(
                self.font,
                chars@,
                rect.x as int,
                rect.y + rect.height - self.font.glyph_size_default.y,
                old(render).spec_cache(),
            ),
    {
        let ghost y0 = rect.y + rect.height - self.font.glyph_size_default.y;
        let ghost c0 = old(render).spec_cache();
        let mut pos = rect.pos();
        pos.y = pos.y + rect.height;
        pos.y = pos.y - self.font.glyph_size_default.y;

        let mut i: usize = 0;

        while i < chars.len()
            invariant
                0 <= i <= chars@.len(),
                render.wf(),
                render.framebuffers == old(render).framebuffers,
                render.viewport == old(render).viewport,
                render.size == old(render).size,
                render.pixel_size == old(render).pixel_size,
                render.font_render == old(render).font_render,
                pos.x == rect.x,
                pos.y == walk_y(self.font, chars@.take(i as int), y0),
                print_fits(self.font, chars@, rect.x as int, y0),
                c0 == old(render).spec_cache(),
                render.spec_cache() == print_cache(self.font, chars@.take(i as int), c0),
                render.queue@ == old(render).queue@ + print_emits(
                    self.font,
                    chars@.take(i as int),
                    rect.x as int,
                    y0,
                    c0,
                ),
            decreases chars@.len() - i,
        {
            proof {
                lemma_walk_take_succ(self.font, chars@, y0, i as int);
                lemma_print_fits_prefix(self.font, chars@, rect.x as int, y0, i as int + 1);
                lemma_print_take_succ(self.font, chars@, rect.x as int, y0, c0, i as int);
            }

            let ch = chars[i];

            match ch {
                Char::Print(glyph) => {
                    let page = self.font.page(glyph.code);

                    match page {
                        Some(texture) => {
                            let ghost pre = render.spec_cache();
                            let texture = *texture;
                            render.set_texture(&texture);

                            proof {
                                assert(render.spec_cache() == pre.spec_set_texture());
                            }

                            let (placing, st) = self.font.render_rect(glyph, pos);
                            render.draw_rect_accept(UsedShader::Font, placing, Some(st), true);

                            proof {
                                assert(render.spec_cache() == pre.spec_set_texture().spec_font_draw());
                                assert(render.queue@ =~= old(render).queue@ + print_emits(
                                    self.font,
                                    chars@.take(i as int + 1),
                                    rect.x as int,
                                    y0,
                                    c0,
                                ));
                            }
                        },
                        None => {
                            proof {
                                assert(render.queue@ =~= old(render).queue@ + print_emits(
                                    self.font,
                                    chars@.take(i as int + 1),
                                    rect.x as int,
                                    y0,
                                    c0,
                                ));
                            }
                        },
                    }
                },
                Char::NewLine => {
                    self.font.new_line(&mut pos);

                    proof {
                        assert(render.queue@ =~= old(render).queue@ + print_emits(
                            self.font,
                            chars@.take(i as int + 1),
                            rect.x as int,
                            y0,
                            c0,
                        ));
                    }
                },
            }

            i = i + 1;
        }

        proof {
            assert(chars@.take(chars@.len() as int) =~= chars@);
        }
    }

    /// Takes the layout buffer back, emptied for the next text.
    pub fn print_end(&mut self, buf: Vec<Char>)
        ensures
            final(self).font == old(self).font,
            final(self).buf matches Some(b) && b@.len() == 0,
    {
        let mut buf = buf;
        buf.clear();
        self.buf = Some(buf);
    }
}

} // verus!
