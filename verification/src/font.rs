use vstd::prelude::*;
use std::collections::HashMap;
use crate::command::TexRect;
use crate::glyphs::{Char, Glyph, Glyphs};
use crate::pages::Pages;
use crate::rect::Rect;
use crate::texture::Texture;
use crate::vec2d::Vec2D;

verus! {

broadcast use vstd::std_specs::hash::group_hash_axioms;

/// One glyph's horizontal metrics: how far into its atlas cell the ink
/// starts, and how wide the glyph is.
#[derive(Clone, Copy, Debug, PartialEq, Eq, Structural)]
pub struct GlyphSize {
    pub left_offset: i32,
    pub width: i32,
}

impl GlyphSize {
    pub fn new(left_offset: i32, width: i32) -> (g: GlyphSize)
        ensures
            g == (GlyphSize { left_offset, width }),
    {
        GlyphSize { left_offset, width }
    }
}

/// The state of laying text out, after some prefix: the elements laid out so
/// far, the width of the line being filled, and the bounding size so far.
pub struct Layout {
    pub chars: Seq<Char>,
    pub width: int,
    pub size_x: int,
    pub size_y: int,
}

/// A bitmap font: a grid atlas of fixed-size cells spread over one or more
/// texture pages, per-glyph widths for the characters that deviate from the
/// default, and the layout constants.
pub struct Font {
    pub atlas_size: Vec2D,
    pub glyphs_on_page: i32,
    pub glyph_size_default: Vec2D,
    pub indent: i32,
    pub line_spacing: i32,
    pub pages: Pages<Texture>,
    pub glyph_widths: HashMap<u32, GlyphSize>,
}

impl Font {
    /// The width data used for `ch`: the per-glyph entry if one exists and
    /// the text is not monospaced, the default cell width otherwise.
    pub open spec fn spec_glyph_size(self, ch: char, monospaced: bool) -> GlyphSize {
        let default = GlyphSize { left_offset: 0, width: self.glyph_size_default.x };
        if monospaced {
            default
        } else if self.glyph_widths@.contains_key(ch as u32) {
            self.glyph_widths@[ch as u32]
        } else {
            default
        }
    }

    /// The layout state before any character: the caller's buffer, an empty
    /// line, and a block one line high.
    pub open spec fn layout_init(self, buf: Seq<Char>) -> Layout {
        Layout { chars: buf, width: 0, size_x: 0, size_y: self.glyph_size_default.y as int }
    }

    /// One character of layout: a line break closes the line and opens a new
    /// one below it; anything else is placed at the line's current width,
    /// which then grows by the glyph's width plus the indent.
    pub open spec fn layout_step(self, st: Layout, ch: char, monospaced: bool) -> Layout {
        if ch == '\n' {
            Layout {
                chars: st.chars.push(Char::NewLine),
                width: 0,
                size_x: if st.width > st.size_x {
                    st.width
                } else {
                    st.size_x
                },
                size_y: st.size_y + self.line_spacing + self.glyph_size_default.y,
            }
        } else {
            let g = self.spec_glyph_size(ch, monospaced);
            let w = st.width + g.width + self.indent;
            Layout {
                chars: st.chars.push(
                    Char::Print(Glyph { size: g, delta_x: st.width as i32, code: ch as u32 }),
                ),
                width: w,
                size_x: if w > st.size_x {
                    w
                } else {
                    st.size_x
                },
                size_y: st.size_y,
            }
        }
    }

    /// The layout state after the whole text.
    pub open spec fn spec_layout(self, text: Seq<char>, monospaced: bool, init: Layout) -> Layout
        decreases text.len(),
    {
        if text.len() == 0 {
            init
        } else {
            self.layout_step(
                self.spec_layout(text.drop_last(), monospaced, init),
                text.last(),
                monospaced,
            )
        }
    }

    /// One layout step stays within the machine integer range, intermediate
    /// sums included.
    pub open spec fn step_fits(self, st: Layout, ch: char, monospaced: bool) -> bool {
        if ch == '\n' {
            &&& i32::MIN <= st.size_y + self.line_spacing <= i32::MAX
            &&& i32::MIN <= st.size_y + self.line_spacing + self.glyph_size_default.y <= i32::MAX
        } else {
            let g = self.spec_glyph_size(ch, monospaced);
            &&& i32::MIN <= st.width <= i32::MAX
            &&& i32::MIN <= st.width + g.width <= i32::MAX
            &&& i32::MIN <= st.width + g.width + self.indent <= i32::MAX
        }
    }

    /// Every step of laying out the text stays within the machine integer
    /// range.
    pub open spec fn layout_fits(self, text: Seq<char>, monospaced: bool, init: Layout) -> bool
        decreases text.len(),
    {
        if text.len() == 0 {
            true
        } else {
            &&& self.layout_fits(text.drop_last(), monospaced, init)
            &&& self.step_fits(
                self.spec_layout(text.drop_last(), monospaced, init),
                text.last(),
                monospaced,
            )
        }
    }

    /// A font over a `atlas_size.x` by `atlas_size.y` grid of glyph cells.
    /// The default cell size comes from dividing the first page evenly.
    pub fn new(
        atlas_size: Vec2D,
        indent: i32,
        line_spacing: i32,
        pages: Pages<Texture>,
        glyph_widths: HashMap<u32, GlyphSize>,
    ) -> (f: Font)
        requires
            atlas_size.x >= 1,
            atlas_size.y >= 1,
            atlas_size.x * atlas_size.y <= i32::MAX,
            pages.first.width >= 0,
            pages.first.height >= 0,
        ensures
            f.atlas_size == atlas_size,
            f.glyphs_on_page == atlas_size.x * atlas_size.y,
            f.glyph_size_default.x == pages.first.width as int / atlas_size.x as int,
            f.glyph_size_default.y == pages.first.height as int / atlas_size.y as int,
            f.indent == indent,
            f.line_spacing == line_spacing,
            f.pages == pages,
            f.glyph_widths == glyph_widths,
    {
        proof {
            assert(atlas_size.x * atlas_size.y >= 1) by (nonlinear_arith)
                requires
                    atlas_size.x >= 1,
                    atlas_size.y >= 1,
            ;
        }

        let width = pages.first().width();
        let height = pages.first().height();
        let glyph_width = width / atlas_size.x;
        let glyph_height = height / atlas_size.y;

        Font {
            atlas_size,
            glyphs_on_page: atlas_size.x * atlas_size.y,
            glyph_size_default: Vec2D::new(glyph_width, glyph_height),
            indent,
            line_spacing,
            pages,
            glyph_widths,
        }
    }

    /// Lays `text` out into `buf`: each printable character becomes a placed
    /// glyph, each line break starts a new line, and the result carries the
    /// bounding size of the block.
    pub fn glyphs(&self, text: &Vec<char>, buf: Vec<Char>, monospaced: bool) -> (r: Glyphs)
        requires
            self.layout_fits(text@, monospaced, self.layout_init(buf@)),
            i32::MIN <= self.glyph_size_default.y <= i32::MAX,
        ensures
            ({
                let fin = self.spec_layout(text@, monospaced, self.layout_init(buf@));
                &&& r.chars@ == fin.chars
                &&& r.size.x == fin.size_x
                &&& r.size.y == fin.size_y
            }),
    {
        let ghost init = self.layout_init(buf@);
        let mut buf = buf;
        let mut width: i32 = 0;
        let mut size_x: i32 = 0;
        let mut size_y: i32 = self.glyph_size_default.y;
        let mut i: usize = 0;

        while i < text.len()
            invariant
                0 <= i <= text@.len(),
                self.layout_fits(text@, monospaced, init),
                i32::MIN <= self.glyph_size_default.y <= i32::MAX,
                ({
                    let st = self.spec_layout(text@.take(i as int), monospaced, init);
                    &&& buf@ == st.chars
                    &&& width == st.width
                    &&& size_x == st.size_x
                    &&& size_y == st.size_y
                }),
            decreases text@.len() - i,
        {
            proof {
                lemma_layout_take_succ(*self, text@, monospaced, init, i as int);
                lemma_layout_fits_prefix(*self, text@, monospaced, init, i as int + 1);
            }

            let ch = text[i];

            if ch == '\n' {
                buf.push(Char::NewLine);

                if width > size_x {
                    size_x = width;
                }

                width = 0;
                size_y = size_y + self.line_spacing + self.glyph_size_default.y;
            } else {
                let default = GlyphSize { left_offset: 0, width: self.glyph_size_default.x };
                let glyph_size = if monospaced {
                    default
                } else {
                    match self.glyph_widths.get(&(ch as u32)) {
                        Some(g) => *g,
                        None => default,
                    }
                };

                buf.push(Char::Print(Glyph { size: glyph_size, delta_x: width, code: ch as u32 }));
                width = width + glyph_size.width + self.indent;

                if width > size_x {
                    size_x = width;
                }
            }

            i = i + 1;
        }

        proof {
            assert(text@.take(text@.len() as int) =~= text@);
        }

        Glyphs::new(buf, Vec2D::new(size_x, size_y))
    }

    /// Lays `text` out like [`Font::glyphs`], but instead of demanding that
    /// every step stays within bounds, answers `None` when one does not.
    pub fn try_glyphs(&self, text: &Vec<char>, buf: &Vec<Char>, monospaced: bool) -> (r: Option<
        Glyphs,
    >)
        ensures
            r is Some <==> self.layout_fits(text@, monospaced, self.layout_init(buf@)),
            r matches Some(g) ==> ({
                let fin = self.spec_layout(text@, monospaced, self.layout_init(buf@));
                &&& g.chars@ == fin.chars
                &&& g.size.x == fin.size_x
                &&& g.size.y == fin.size_y
            }),
    {
        let mut out: Vec<Char> = Vec::new();
        let mut j: usize = 0;

        while j < buf.len()
            invariant
                0 <= j <= buf@.len(),
                out@ == buf@.take(j as int),
            decreases buf@.len() - j,
        {
            proof {
                assert(buf@.take(j as int + 1) =~= buf@.take(j as int).push(buf@[j as int]));
            }

            out.push(buf[j]);
            j = j + 1;
        }

        proof {
            assert(buf@.take(buf@.len() as int) =~= buf@);
        }

        let ghost init = self.layout_init(buf@);
        let mut width: i32 = 0;
        let mut size_x: i32 = 0;
        let mut size_y: i32 = self.glyph_size_default.y;
        let mut i: usize = 0;

        while i < text.len()
            invariant
                0 <= i <= text@.len(),
                init == self.layout_init(buf@),
                self.layout_fits(text@.take(i as int), monospaced, init),
                ({
                    let st = self.spec_layout(text@.take(i as int), monospaced, init);
                    &&& out@ == st.chars
                    &&& width == st.width
                    &&& size_x == st.size_x
                    &&& size_y == st.size_y
                }),
            decreases text@.len() - i,
        {
            proof {
                lemma_layout_take_succ(*self, text@, monospaced, init, i as int);
                assert(text@.take(i as int + 1).drop_last() =~= text@.take(i as int));
                assert(text@.take(i as int + 1).last() == text@[i as int]);
            }

            let ch = text[i];

            if ch == '\n' {
                let below = match size_y.checked_add(self.line_spacing) {
                    Some(v) => v,
                    None => {
                        proof {
                            if self.layout_fits(text@, monospaced, init) {
                                lemma_layout_fits_prefix(
                                    *self,
                                    text@,
                                    monospaced,
                                    init,
                                    i as int + 1,
                                );
                                assert(false);
                            }
                        }

                        return None;
                    },
                };
                let next_y = match below.checked_add(self.glyph_size_default.y) {
                    Some(v) => v,
                    None => {
                        proof {
                            if self.layout_fits(text@, monospaced, init) {
                                lemma_layout_fits_prefix(
                                    *self,
                                    text@,
                                    monospaced,
                                    init,
                                    i as int + 1,
                                );
                                assert(false);
                            }
                        }

                        return None;
                    },
                };

                out.push(Char::NewLine);

                if width > size_x {
                    size_x = width;
                }

                width = 0;
                size_y = next_y;
            } else {
                let default = GlyphSize { left_offset: 0, width: self.glyph_size_default.x };
                let glyph_size = if monospaced {
                    default
                } else {
                    match self.glyph_widths.get(&(ch as u32)) {
                        Some(g) => *g,
                        None => default,
                    }
                };

                let grown = match width.checked_add(glyph_size.width) {
                    Some(v) => v,
                    None => {
                        proof {
                            if self.layout_fits(text@, monospaced, init) {
                                lemma_layout_fits_prefix(
                                    *self,
                                    text@,
                                    monospaced,
                                    init,
                                    i as int + 1,
                                );
                                assert(false);
                            }
                        }

                        return None;
                    },
                };
                let next_width = match grown.checked_add(self.indent) {
                    Some(v) => v,
                    None => {
                        proof {
                            if self.layout_fits(text@, monospaced, init) {
                                lemma_layout_fits_prefix(
                                    *self,
                                    text@,
                                    monospaced,
                                    init,
                                    i as int + 1,
                                );
                                assert(false);
                            }
                        }

                        return None;
                    },
                };

                out.push(Char::Print(Glyph { size: glyph_size, delta_x: width, code: ch as u32 }));
                width = next_width;

                if width > size_x {
                    size_x = width;
                }
            }

            i = i + 1;
        }

        proof {
            assert(text@.take(text@.len() as int) =~= text@);
        }

        Some(Glyphs::new(out, Vec2D::new(size_x, size_y)))
    }

    /// Decides [`Font::st_fits`] at run time.
    pub fn check_st_fits(&self, glyph: Glyph) -> (r: bool)
        ensures
            r == self.st_fits(glyph),
    {
        if glyph.code > 0x7fff_ffff {
            return false;
        }

        if self.glyphs_on_page < 1 {
            return false;
        }

        if self.atlas_size.x < 1 {
            return false;
        }

        let cap = (glyph.code as i32) % self.glyphs_on_page;
        let column = cap % self.atlas_size.x;
        let row = cap / self.atlas_size.x;

        let cell = match column.checked_mul(self.glyph_size_default.x) {
            Some(v) => v,
            None => {
                return false;
            },
        };

        if cell.checked_add(glyph.size.left_offset).is_none() {
            return false;
        }

        if row.checked_mul(self.glyph_size_default.y).is_none() {
            return false;
        }

        if self.glyph_size_default.x.checked_mul(self.atlas_size.x).is_none() {
            return false;
        }

        if self.glyph_size_default.y.checked_mul(self.atlas_size.y).is_none() {
            return false;
        }

        true
    }

    /// Where a glyph lands on screen when its line starts at `(x, y)`:
    /// shifted by the glyph's offset in the line, one default cell high.
    pub open spec fn spec_placing_at(self, glyph: Glyph, x: int, y: int) -> Rect {
        Rect {
            x: (x + glyph.delta_x) as i32,
            y: y as i32,
            width: glyph.size.width,
            height: self.glyph_size_default.y,
        }
    }

    /// Where `glyph` lands on screen when its line starts at `pos`.
    pub fn placing(&self, glyph: Glyph, pos: Vec2D) -> (r: Rect)
        requires
            i32::MIN <= pos.x + glyph.delta_x <= i32::MAX,
        ensures
            r == self.spec_placing_at(glyph, pos.x as int, pos.y as int),
    {
        Rect {
            x: pos.x + glyph.delta_x,
            y: pos.y,
            width: glyph.size.width,
            height: self.glyph_size_default.y,
        }
    }

    /// The texel arithmetic of `st_map` stays within the machine integer
    /// range.
    pub open spec fn st_fits(self, glyph: Glyph) -> bool {
        let cap = (glyph.code as int) % (self.glyphs_on_page as int);
        &&& glyph.code <= i32::MAX
        &&& self.glyphs_on_page >= 1
        &&& self.atlas_size.x >= 1
        &&& i32::MIN <= (cap % (self.atlas_size.x as int)) * self.glyph_size_default.x <= i32::MAX
        &&& i32::MIN <= (cap % (self.atlas_size.x as int)) * self.glyph_size_default.x
            + glyph.size.left_offset <= i32::MAX
        &&& i32::MIN <= (cap / (self.atlas_size.x as int)) * self.glyph_size_default.y <= i32::MAX
        &&& i32::MIN <= self.glyph_size_default.x * self.atlas_size.x <= i32::MAX
        &&& i32::MIN <= self.glyph_size_default.y * self.atlas_size.y <= i32::MAX
    }

    /// The atlas sub-rectangle a glyph is sampled from, in texel coordinates
    /// over one atlas page: the glyph's cell in the grid, shifted by its
    /// left offset and narrowed to its width.
    pub open spec fn spec_st_map(self, glyph: Glyph) -> TexRect {
        let cap = (glyph.code as int) % (self.glyphs_on_page as int);
        TexRect {
            rect: Rect {
                x: ((cap % (self.atlas_size.x as int)) * self.glyph_size_default.x
                    + glyph.size.left_offset) as i32,
                y: ((cap / (self.atlas_size.x as int)) * self.glyph_size_default.y) as i32,
                width: glyph.size.width,
                height: self.glyph_size_default.y,
            },
            tex_width: (self.glyph_size_default.x * self.atlas_size.x) as i32,
            tex_height: (self.glyph_size_default.y * self.atlas_size.y) as i32,
        }
    }

    /// The atlas sub-rectangle `glyph` is sampled from.
    pub fn st_map(&self, glyph: Glyph) -> (r: TexRect)
        requires
            self.st_fits(glyph),
        ensures
            r == self.spec_st_map(glyph),
    {
        let code_at_page = (glyph.code as i32) % self.glyphs_on_page;
        let s = (code_at_page % self.atlas_size.x) * self.glyph_size_default.x
            + glyph.size.left_offset;
        let t = (code_at_page / self.atlas_size.x) * self.glyph_size_default.y;

        TexRect {
            rect: Rect { x: s, y: t, width: glyph.size.width, height: self.glyph_size_default.y },
            tex_width: self.glyph_size_default.x * self.atlas_size.x,
            tex_height: self.glyph_size_default.y * self.atlas_size.y,
        }
    }

    /// Both halves of drawing one glyph: where it lands on screen and what
    /// it samples.
    pub fn render_rect(&self, glyph: Glyph, pos: Vec2D) -> (r: (Rect, TexRect))
        requires
            i32::MIN <= pos.x + glyph.delta_x <= i32::MAX,
            self.st_fits(glyph),
        ensures
            r.0 == self.spec_placing_at(glyph, pos.x as int, pos.y as int),
            r.1 == self.spec_st_map(glyph),
    {
        (self.placing(glyph, pos), self.st_map(glyph))
    }

    /// The atlas page holding the glyph with this code, if it was added.
    pub fn page(&self, code: u32) -> (r: Option<&Texture>)
        requires
            code <= i32::MAX,
            self.glyphs_on_page >= 1,
        ensures
            ({
                let page_code = (code as int) / (self.glyphs_on_page as int);
                match r {
                    Some(t) => self.pages.spec_get(page_code) == Some(*t),
                    None => self.pages.spec_get(page_code) is None,
                }
            }),
    {
        let page_code = (code as i32) / self.glyphs_on_page;

        proof {
            vstd::arithmetic::div_mod::lemma_div_pos_is_pos(
                code as int,
                self.glyphs_on_page as int,
            );
        }

        self.pages.get(page_code as usize)
    }

    /// Moves `pos` down by one line.
    pub fn new_line(&self, pos: &mut Vec2D)
        requires
            i32::MIN <= old(pos).y - self.line_spacing <= i32::MAX,
            i32::MIN <= old(pos).y - self.line_spacing - self.glyph_size_default.y <= i32::MAX,
        ensures
            final(pos).x == old(pos).x,
            final(pos).y == old(pos).y - self.line_spacing - self.glyph_size_default.y,
    {
        pos.y = pos.y - self.line_spacing - self.glyph_size_default.y;
    }

    pub fn glyph_size_default(&self) -> (s: Vec2D)
        ensures
            s == self.glyph_size_default,
    {
        self.glyph_size_default
    }
}

/// Laying out one more character extends the laid out prefix by one step.
proof fn lemma_layout_take_succ(
    font: Font,
    text: Seq<char>,
    monospaced: bool,
    init: Layout,
    i: int,
)
    requires
        0 <= i < text.len(),
    ensures
        font.spec_layout(text.take(i + 1), monospaced, init) == font.layout_step(
            font.spec_layout(text.take(i), monospaced, init),
            text[i],
            monospaced,
        ),
{
    assert(text.take(i + 1).drop_last() =~= text.take(i));
    assert(text.take(i + 1).last() == text[i]);
}

/// If the whole text lays out within bounds, so does every prefix.
proof fn lemma_layout_fits_prefix(
    font: Font,
    text: Seq<char>,
    monospaced: bool,
    init: Layout,
    i: int,
)
    requires
        0 <= i <= text.len(),
        font.layout_fits(text, monospaced, init),
    ensures
        font.layout_fits(text.take(i), monospaced, init),
    decreases text.len(),
{
    if i == text.len() {
        assert(text.take(i) =~= text);
    } else {
        assert(text.drop_last().take(i) =~= text.take(i));
        lemma_layout_fits_prefix(font, text.drop_last(), monospaced, init, i);
    }
}

} // verus!
