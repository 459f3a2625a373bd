use vstd::prelude::*;
use crate::color::Color;
use crate::command::{Command, Ortho, TexRect};
use crate::framebuffers::{FramebufferError, FramebufferSet};
use crate::rect::Rect;
use crate::renderbuffer;
use crate::shader_data::{BaseData, PostData, ShaderData, SharedLocations, UsedShader};
use crate::shaders::{ShaderError, ShaderProgram, ShaderSet};
use crate::texture;
use crate::texture::Texture;
use crate::uniform::{UniformData, UniformError};
use crate::vec2d::Vec2D;
use crate::viewport::{viewport_emits, Viewport};

verus! {

#[derive(Clone, Debug, PartialEq, Eq)]
pub enum RenderError {
    UniformError(UniformError),
    ShaderError(ShaderError),
    FramebufferError(FramebufferError),
    /// The pixel scale was zero or negative.
    WrongPixelSize,
}

/// Where each uniform name the renderer drives resolved in its programs.
/// The caller queries the compiled programs for these and hands them in.
#[derive(Clone, Copy, Debug, PartialEq, Eq, Structural)]
pub struct RenderLocations {
    /// "is a texture bound", in the base program.
    pub draw_texture: i32,
    /// The composite source unit, in the post program.
    pub frame: i32,
    /// The projection matrix, in the font and base programs.
    pub projection: SharedLocations,
    /// The bound texture's sampler unit, in the font and base programs.
    pub texture0: SharedLocations,
    /// The draw color, in the font and base programs.
    pub col: SharedLocations,
}

impl RenderLocations {
    /// Every location resolved.
    pub open spec fn all_valid(self) -> bool {
        &&& self.draw_texture >= 0
        &&& self.frame >= 0
        &&& self.projection.font >= 0
        &&& self.projection.base >= 0
        &&& self.texture0.font >= 0
        &&& self.texture0.base >= 0
        &&& self.col.font >= 0
        &&& self.col.base >= 0
    }
}

/// Entries of a shared uniform consumed by the font role and then the base
/// role, in that order.
pub open spec fn shared_entries_wf(entries: Seq<UniformData>) -> bool {
    &&& entries.len() == 2
    &&& entries[0].shader_idx == UsedShader::Font.spec_index()
    &&& entries[1].shader_idx == UsedShader::Base.spec_index()
}

/// Everything `Render::new` sends on success, in order: the setup binds of
/// the uniform caches, the off-screen framebuffer with one color texture and
/// one depth renderbuffer, and the first viewport size.
pub open spec fn setup_emits(
    base: ShaderProgram,
    font: ShaderProgram,
    post: ShaderProgram,
    size: Vec2D,
) -> Seq<Command> {
    seq![
        Command::BindProgram { id: base.id },
        Command::BindProgram { id: post.id },
        Command::BindProgram { id: font.id },
        Command::BindProgram { id: base.id },
        Command::BindProgram { id: font.id },
        Command::BindProgram { id: base.id },
        Command::BindProgram { id: font.id },
        Command::BindProgram { id: base.id },
        Command::CreateFramebuffer { id: 1u32 },
        Command::BindFramebuffer { id: 1u32 },
        Command::AddTexture {
            framebuffer: 1u32,
            id: 2u32,
            format: texture::Format::RGB,
            width: size.x,
            height: size.y,
            slot: 0u32,
        },
        Command::AddRenderbuffer {
            framebuffer: 1u32,
            id: 3u32,
            format: renderbuffer::Format::Depth24,
            width: size.x,
            height: size.y,
            attachment: renderbuffer::Attachment::Depth,
        },
        Command::SetViewport { width: size.x, height: size.y },
    ]
}

/// A nonnegative size divided by a positive scale stays nonnegative, and
/// scaling it back up never exceeds the original.
proof fn lemma_scaled_size(w: int, p: int)
    requires
        w >= 0,
        p >= 1,
    ensures
        0 <= w / p,
        (w / p) * p <= w,
{
    vstd::arithmetic::div_mod::lemma_div_pos_is_pos(w, p);
    vstd::arithmetic::div_mod::lemma_fundamental_div_mod(w, p);
    vstd::arithmetic::div_mod::lemma_mod_bound(w, p);
}

/// The uniform-cache half of the renderer's state: what the draw protocol
/// reads and updates, as one value.  The glyph walk's contracts are stated
/// over it.
pub struct RenderCache {
    pub shaders: crate::shaders::ShaderSetView,
    pub projection: crate::uniform::SharedUniformView<Ortho>,
    pub texture0: crate::uniform::SharedUniformView<i32>,
    pub col: crate::uniform::SharedUniformView<Color>,
    pub draw_texture: crate::uniform::Uniform<bool>,
    pub frame: crate::uniform::Uniform<i32>,
}

impl RenderCache {
    /// The state after `set_texture`: the sampler unit cached as 0 and the
    /// textured-draw flag cached as on.
    pub open spec fn spec_set_texture(self) -> RenderCache {
        RenderCache {
            texture0: self.texture0.spec_set_value(0i32),
            draw_texture: self.draw_texture.spec_set_value(true),
            ..self
        }
    }

    /// The state after `set_color`.
    pub open spec fn spec_set_color(self, color: Color) -> RenderCache {
        RenderCache { col: self.col.spec_set_value(color), ..self }
    }

    /// The state after a draw with the font role: the font program active
    /// and its copies of the shared values synchronized.
    pub open spec fn spec_font_draw(self) -> RenderCache {
        let idx = UsedShader::Font.spec_index();
        RenderCache {
            shaders: self.shaders.spec_use_shader(idx),
            projection: self.projection.spec_accept(idx),
            texture0: self.texture0.spec_accept(idx),
            col: self.col.spec_accept(idx),
            ..self
        }
    }

    /// What a draw with the font role sends before the quad itself: the bind
    /// if the font program was not active, then its stale shared values.
    pub open spec fn font_accept_emits(self) -> Seq<Command> {
        let idx = UsedShader::Font.spec_index();
        self.shaders.use_shader_emits(idx) + self.projection.accept_emits(idx)
            + self.texture0.accept_emits(idx) + self.col.accept_emits(idx)
    }
}

/// The renderer: one shader set with the three fixed roles, one framebuffer
/// set holding the off-screen target, the uniform caches, and the queue of
/// GPU commands the decisions produce.  A caller drains the queue with
/// [`Render::take_commands`] and executes it.
pub struct Render {
    pub viewport: Viewport,
    pub font_render: Option<crate::font_render::FontRender>,
    pub shaders: ShaderSet,
    pub framebuffers: FramebufferSet,
    pub size: Vec2D,
    pub pixel_size: i32,
    pub base_data: BaseData,
    pub post_data: PostData,
    pub shader_data: ShaderData,
    pub queue: Vec<Command>,
}

impl Render {
    /// The shape every renderer operation preserves: the three roles are
    /// present, the off-screen target has its one color texture and its
    /// depth/stencil renderbuffer, the logical size scales back to the
    /// window without overflow, and each uniform cache belongs to the
    /// program it was resolved against.
    pub open spec fn wf(self) -> bool {
        &&& self.shaders@.wf()
        &&& self.shaders@.programs.len() == 3
        &&& self.framebuffers.wf()
        &&& self.framebuffers.framebuffers@.len() == 1
        &&& self.framebuffers.framebuffers@[0].renderbuffer is Some
        &&& self.framebuffers.framebuffers@[0].textures@.len() == 1
        &&& self.pixel_size >= 1
        &&& 0 <= self.size.x
        &&& 0 <= self.size.y
        &&& self.size.x * self.pixel_size <= i32::MAX
        &&& self.size.y * self.pixel_size <= i32::MAX
        &&& self.base_data.draw_texture.shader == self.shaders@.programs[
            UsedShader::Base.spec_index() as int
        ].id
        &&& self.post_data.frame.shader == self.shaders@.programs[
            UsedShader::Post.spec_index() as int
        ].id
        &&& shared_entries_wf(self.shader_data.projection@.entries)
        &&& shared_entries_wf(self.shader_data.texture0@.entries)
        &&& shared_entries_wf(self.shader_data.col@.entries)
    }

    /// The cached GPU state, as the glyph walk's contracts speak of it.
    pub open spec fn spec_cache(self) -> RenderCache {
        RenderCache {
            shaders: self.shaders@,
            projection: self.shader_data.projection@,
            texture0: self.shader_data.texture0@,
            col: self.shader_data.col@,
            draw_texture: self.base_data.draw_texture,
            frame: self.post_data.frame,
        }
    }

    /// Builds the renderer for a window of `window_size` pixels drawn at
    /// `pixel_size`-fold magnification: registers the three role programs,
    /// builds every uniform cache from the resolved locations, and creates
    /// the off-screen target (one RGB color texture, one 24-bit depth
    /// renderbuffer) at the logical size.  Fails on a non-positive pixel
    /// scale and on any unresolved uniform location; there is no partial
    /// render mode.
    pub fn new(
        window_size: Vec2D,
        pixel_size: i32,
        base: ShaderProgram,
        font: ShaderProgram,
        post: ShaderProgram,
        locations: RenderLocations,
    ) -> (r: Result<Render, RenderError>)
        requires
            window_size.x >= 0,
            window_size.y >= 0,
        ensures
            r is Ok <==> pixel_size >= 1 && locations.all_valid(),
            r matches Err(e) ==> {
                &&& pixel_size < 1 ==> e == RenderError::WrongPixelSize
                &&& pixel_size >= 1 ==> e == RenderError::UniformError(
                    UniformError::IncorrectLocation,
                )
            },
            r matches Ok(render) ==> {
                let sx = window_size.x as int / pixel_size as int;
                let sy = window_size.y as int / pixel_size as int;
                let size = render.size;
                &&& render.wf()
                &&& render.size.x == sx
                &&& render.size.y == sy
                &&& render.pixel_size == pixel_size
                &&& render.shaders@.programs =~= seq![base, font, post]
                &&& render.shaders@.used == Some(UsedShader::Base.spec_index())
                &&& render.framebuffers.bound == Some(0usize)
                &&& render.framebuffers.framebuffers@[0].size == size
                &&& render.framebuffers.framebuffers@[0].textures@[0].format
                    == texture::Format::RGB
                &&& render.framebuffers.framebuffers@[0].renderbuffer matches Some(rb)
                    && rb.format == renderbuffer::Format::Depth24
                &&& render.base_data.draw_texture == (crate::uniform::Uniform {
                    value: false,
                    location: locations.draw_texture,
                    shader: base.id,
                    accepted: false,
                })
                &&& render.post_data.frame == (crate::uniform::Uniform {
                    value: 0i32,
                    location: locations.frame,
                    shader: post.id,
                    accepted: false,
                })
                &&& render.shader_data.projection@.value == (Ortho {
                    width: size.x,
                    height: size.y,
                })
                &&& render.shader_data.texture0@.value == 0i32
                &&& render.shader_data.col@.value == (Color(255, 255, 255, 255))
                &&& render.viewport.size == size
                &&& render.font_render is None
                &&& render.queue@ == setup_emits(base, font, post, size)
            },
    {
        if pixel_size < 1 {
            return Err(RenderError::WrongPixelSize);
        }

        let mut queue: Vec<Command> = Vec::new();

        let mut shaders = ShaderSet::new();
        shaders.add(base);
        shaders.add(font);
        shaders.add(post);

        let size = Vec2D::new(window_size.x / pixel_size, window_size.y / pixel_size);

        proof {
            lemma_scaled_size(window_size.x as int, pixel_size as int);
            lemma_scaled_size(window_size.y as int, pixel_size as int);
        }

        let projection = Ortho { width: size.x, height: size.y };

        let base_data = match BaseData::new(&mut shaders, locations.draw_texture, &mut queue) {
            Ok(d) => d,
            Err(e) => {
                return Err(RenderError::UniformError(e));
            },
        };

        let post_data = match PostData::new(&mut shaders, locations.frame, &mut queue) {
            Ok(d) => d,
            Err(e) => {
                return Err(RenderError::UniformError(e));
            },
        };

        let ghost s2 = shaders@;
        let shader_data = match ShaderData::new(
            &mut shaders,
            projection,
            locations.projection,
            locations.texture0,
            locations.col,
            &mut queue,
        ) {
            Ok(d) => d,
            Err(e) => {
                return Err(RenderError::UniformError(e));
            },
        };

        proof {
            crate::shader_data::lemma_binds_pair(s2, locations.projection);
            crate::shader_data::lemma_binds_pair(
                s2.spec_use_shader(1).spec_use_shader(0),
                locations.texture0,
            );
            crate::shader_data::lemma_binds_pair(
                s2.spec_use_shader(1).spec_use_shader(0),
                locations.col,
            );
            assert(queue@ =~= seq![
                Command::BindProgram { id: base.id },
                Command::BindProgram { id: post.id },
                Command::BindProgram { id: font.id },
                Command::BindProgram { id: base.id },
                Command::BindProgram { id: font.id },
                Command::BindProgram { id: base.id },
                Command::BindProgram { id: font.id },
                Command::BindProgram { id: base.id },
            ]);
        }

        let mut framebuffers = FramebufferSet::new();
        framebuffers.add_framebuffer(size, &mut queue);

        // The scaled size is never negative here, so neither attachment can
        // fail; both error arms are proved unreachable.
        match framebuffers.add_texture(texture::Format::RGB, &mut queue) {
            Ok(()) => {},
            Err(e) => {
                proof {
                    assert(false);
                }
                return Err(RenderError::FramebufferError(e));
            },
        }

        match framebuffers.add_renderbuffer(renderbuffer::Format::Depth24, &mut queue) {
            Ok(()) => {},
            Err(e) => {
                proof {
                    assert(false);
                }
                return Err(RenderError::FramebufferError(e));
            },
        }

        let viewport = Viewport::new(size, &mut queue);

        proof {
            assert(queue@ =~= setup_emits(base, font, post, size));
        }

        Ok(
            Render {
                viewport,
                font_render: None,
                shaders,
                framebuffers,
                size,
                pixel_size,
                base_data,
                post_data,
                shader_data,
                queue,
            },
        )
    }

    pub fn size(&self) -> (s: Vec2D)
        ensures
            s == self.size,
    {
        self.size
    }

    /// The commands decided on so far, in the order they must run.
    pub fn commands(&self) -> (r: &Vec<Command>)
        ensures
            r@ == self.queue@,
    {
        &self.queue
    }

    /// Installs the glyph renderer once its atlas pages have been loaded.
    pub fn set_font_render(&mut self, font_render: crate::font_render::FontRender)
        ensures
            final(self).font_render == Some(font_render),
            final(self).viewport == old(self).viewport,
            final(self).shaders == old(self).shaders,
            final(self).framebuffers == old(self).framebuffers,
            final(self).size == old(self).size,
            final(self).pixel_size == old(self).pixel_size,
            final(self).base_data == old(self).base_data,
            final(self).post_data == old(self).post_data,
            final(self).shader_data == old(self).shader_data,
            final(self).queue == old(self).queue,
            old(self).wf() ==> final(self).wf(),
    {
        self.font_render = Some(font_render);
    }

    /// Everything `print` demands of its inputs: the text lays out within
    /// bounds, the laid out block is representable and anchorable inside the
    /// frame, and walking the glyphs (shadowed and plain) stays within the
    /// coordinate range.
    pub open spec fn print_ok(
        self,
        text: Seq<char>,
        params: crate::draw::DrawParameters,
    ) -> bool {
        &&& self.font_render is Some
        &&& self.font_render->0.buf is Some
        &&& ({
            let fr = self.font_render->0;
            let buf = fr.buf->0;
            let font = fr.font;
            let fin = font.spec_layout(text, params.font_style.monospaced, font.layout_init(buf@));
            let size = Vec2D { x: fin.size_x as i32, y: fin.size_y as i32 };
            let rx = params.position.spec_pos(params.frame, size).0;
            let ry = params.position.spec_pos(params.frame, size).1;
            let y0 = ry + fin.size_y - font.glyph_size_default.y;
            &&& font.layout_fits(text, params.font_style.monospaced, font.layout_init(buf@))
            &&& 0 <= fin.size_x <= i32::MAX
            &&& 0 <= fin.size_y <= i32::MAX
            &&& params.frame.width >= 0
            &&& params.frame.height >= 0
            &&& params.position.fits(params.frame, size)
            &&& i32::MIN <= ry + fin.size_y <= i32::MAX
            &&& i32::MIN <= y0 <= i32::MAX
            &&& crate::font_render::print_fits(font, fin.chars, rx, y0)
            &&& (params.font_style.shadow matches Some(sh) ==> {
                &&& i32::MIN <= rx + sh.delta.x <= i32::MAX
                &&& i32::MIN <= ry + sh.delta.y <= i32::MAX
                &&& i32::MIN <= ry + sh.delta.y + fin.size_y <= i32::MAX
                &&& i32::MIN <= ry + sh.delta.y + fin.size_y - font.glyph_size_default.y
                    <= i32::MAX
                &&& crate::font_render::print_fits(
                    font,
                    fin.chars,
                    rx + sh.delta.x,
                    ry + sh.delta.y + fin.size_y - font.glyph_size_default.y,
                )
            })
        })
    }

    /// Decides [`Render::print_ok`] at run time, so that an unverified
    /// caller can test the precondition of `print` before calling it.
    pub fn can_print(&self, text: &Vec<char>, params: &crate::draw::DrawParameters) -> (r: bool)
        ensures
            r == self.print_ok(text@, *params),
    {
        let fr = match &self.font_render {
            Some(fr) => fr,
            None => {
                return false;
            },
        };

        let buf = match &fr.buf {
            Some(b) => b,
            None => {
                return false;
            },
        };

        let glyphs = match fr.font.try_glyphs(text, buf, params.font_style.monospaced) {
            Some(g) => g,
            None => {
                return false;
            },
        };

        let size = glyphs.size();

        if size.x < 0 || size.y < 0 {
            return false;
        }

        let rect = match params.position.checked_rect(params.frame, size) {
            Some(rect) => rect,
            None => {
                return false;
            },
        };

        let top = match rect.y.checked_add(size.y) {
            Some(v) => v,
            None => {
                return false;
            },
        };

        let y0 = match top.checked_sub(fr.font.glyph_size_default.y) {
            Some(v) => v,
            None => {
                return false;
            },
        };

        if !crate::font_render::check_print_fits(&fr.font, glyphs.chars(), rect.x, y0) {
            return false;
        }

        match params.font_style.shadow {
            Some(shadow) => {
                let sx = match rect.x.checked_add(shadow.delta.x) {
                    Some(v) => v,
                    None => {
                        return false;
                    },
                };

                let sy = match rect.y.checked_add(shadow.delta.y) {
                    Some(v) => v,
                    None => {
                        return false;
                    },
                };

                let stop = match sy.checked_add(size.y) {
                    Some(v) => v,
                    None => {
                        return false;
                    },
                };

                let sy0 = match stop.checked_sub(fr.font.glyph_size_default.y) {
                    Some(v) => v,
                    None => {
                        return false;
                    },
                };

                crate::font_render::check_print_fits(&fr.font, glyphs.chars(), sx, sy0)
            },
            None => true,
        }
    }

    /// Prints `text` anchored inside the frame: lays it out with the
    /// installed font, draws the shadow pass first if the style asks for
    /// one, then the text itself in the inherited color.
    pub fn print(&mut self, text: &Vec<char>, params: &crate::draw::DrawParameters)
        requires
            old(self).wf(),
            old(self).print_ok(text@, *params),
        ensures
            final(self).wf(),
            final(self).framebuffers == old(self).framebuffers,
            final(self).viewport == old(self).viewport,
            final(self).size == old(self).size,
            final(self).pixel_size == old(self).pixel_size,
            final(self).font_render is Some,
            final(self).font_render->0.font == old(self).font_render->0.font,
            final(self).font_render->0.buf is Some,
            final(self).font_render->0.buf->0@.len() == 0,
            ({
                let font = old(self).font_render->0.font;
                let fin = font.spec_layout(
                    text@,
                    params.font_style.monospaced,
                    font.layout_init(old(self).font_render->0.buf->0@),
                );
                let size = Vec2D { x: fin.size_x as i32, y: fin.size_y as i32 };
                let rx = params.position.spec_pos(params.frame, size).0;
                let ry = params.position.spec_pos(params.frame, size).1;
                let y0 = ry + fin.size_y - font.glyph_size_default.y;
                let c0 = old(self).spec_cache();
                match params.font_style.shadow {
                    Some(sh) => {
                        let c1 = c0.spec_set_color(sh.color);
                        let e1 = crate::font_render::print_emits(
                            font,
                            fin.chars,
                            rx + sh.delta.x,
                            ry + sh.delta.y + fin.size_y - font.glyph_size_default.y,
                            c1,
                        );
                        let c2 = crate::font_render::print_cache(
                            font,
                            fin.chars,
                            c1,
                        ).spec_set_color(params.color);
                        let e2 = crate::font_render::print_emits(font, fin.chars, rx, y0, c2);
                        &&& final(self).queue@ == old(self).queue@ + e1 + e2
                        &&& final(self).spec_cache() == crate::font_render::print_cache(
                            font,
                            fin.chars,
                            c2,
                        )
                    },
                    None => {
                        let c1 = c0.spec_set_color(params.color);
                        &&& final(self).queue@ == old(self).queue@
                            + crate::font_render::print_emits(font, fin.chars, rx, y0, c1)
                        &&& final(self).spec_cache() == crate::font_render::print_cache(
                            font,
                            fin.chars,
                            c1,
                        )
                    },
                }
            }),
    {
        let taken = self.font_render.take();

        match taken {
            Some(mut font) => {
                let glyphs = font.glyphs(text, params.font_style.monospaced);
                let rect = params.render_rect(glyphs.size());

                match params.font_style.shadow {
                    Some(shadow) => {
                        self.set_color(shadow.color);

                        let shadow_rect = Rect {
                            x: rect.x + shadow.delta.x,
                            y: rect.y + shadow.delta.y,
                            width: rect.width,
                            height: rect.height,
                        };

                        font.print(self, glyphs.chars(), shadow_rect);
                    },
                    None => {},
                }

                self.set_color(params.color);
                font.print(self, glyphs.chars(), rect);
                font.print_end(glyphs.into_inner());

                self.font_render = Some(font);

                proof {
                    let spec_font = old(self).font_render->0.font;
                    let fin = spec_font.spec_layout(
                        text@,
                        params.font_style.monospaced,
                        spec_font.layout_init(old(self).font_render->0.buf->0@),
                    );
                    let c0 = old(self).spec_cache();

                    match params.font_style.shadow {
                        Some(sh) => {
                            let size = Vec2D { x: fin.size_x as i32, y: fin.size_y as i32 };
                            let rx = params.position.spec_pos(params.frame, size).0;
                            let ry = params.position.spec_pos(params.frame, size).1;
                            let y0 = ry + fin.size_y - spec_font.glyph_size_default.y;
                            let c1 = c0.spec_set_color(sh.color);
                            let e1 = crate::font_render::print_emits(
                                spec_font,
                                fin.chars,
                                rx + sh.delta.x,
                                ry + sh.delta.y + fin.size_y - spec_font.glyph_size_default.y,
                                c1,
                            );
                            let c2 = crate::font_render::print_cache(
                                spec_font,
                                fin.chars,
                                c1,
                            ).spec_set_color(params.color);
                            let e2 = crate::font_render::print_emits(
                                spec_font,
                                fin.chars,
                                rx,
                                y0,
                                c2,
                            );
                            assert(self.queue@ =~= old(self).queue@ + e1 + e2);
                        },
                        None => {},
                    }
                }
            },
            None => {
                proof {
                    assert(false);
                }
            },
        }
    }

    /// Hands the queued commands to the caller and leaves the queue empty.
    pub fn take_commands(&mut self) -> (r: Vec<Command>)
        ensures
            r@ == old(self).queue@,
            final(self).queue@.len() == 0,
            final(self).viewport == old(self).viewport,
            final(self).shaders == old(self).shaders,
            final(self).framebuffers == old(self).framebuffers,
            final(self).size == old(self).size,
            final(self).pixel_size == old(self).pixel_size,
            final(self).base_data == old(self).base_data,
            final(self).post_data == old(self).post_data,
            final(self).shader_data == old(self).shader_data,
            final(self).font_render == old(self).font_render,
            final(self).wf() == old(self).wf(),
    {
        let mut taken: Vec<Command> = Vec::new();
        std::mem::swap(&mut self.queue, &mut taken);
        taken
    }

    /// Adapts to a new window size: recomputes the logical size, updates the
    /// shared projection, and rebuilds the off-screen target at the new size,
    /// keeping its attachment formats.
    pub fn resize(&mut self, size: Vec2D)
        requires
            old(self).wf(),
            size.x >= 0,
            size.y >= 0,
            old(self).framebuffers.next_id + 3 <= u32::MAX,
        ensures
            final(self).wf(),
            ({
                let sx = size.x as int / old(self).pixel_size as int;
                let sy = size.y as int / old(self).pixel_size as int;
                let fb = old(self).framebuffers.framebuffers@[0];
                let nfb = final(self).framebuffers.framebuffers@[0];
                &&& final(self).size.x == sx
                &&& final(self).size.y == sy
                &&& final(self).pixel_size == old(self).pixel_size
                &&& final(self).shader_data.projection@ == old(
                    self,
                ).shader_data.projection@.spec_set_value(
                    Ortho { width: sx as i32, height: sy as i32 },
                )
                &&& nfb.size == final(self).size
                &&& nfb.textures@.len() == 1
                &&& nfb.textures@[0].format == fb.textures@[0].format
                &&& (fb.renderbuffer matches Some(rb) ==> nfb.renderbuffer matches Some(nrb)
                    && nrb.format == rb.format)
                &&& final(self).framebuffers.bound == Some(0usize)
                &&& final(self).queue@ == old(self).queue@ + old(self).framebuffers.bind_emits(0)
                    + crate::framebuffers::resize_emits(
                    fb,
                    final(self).size,
                    old(self).framebuffers.next_id,
                )
                &&& final(self).shaders == old(self).shaders
                &&& final(self).viewport == old(self).viewport
                &&& final(self).font_render == old(self).font_render
            }),
    {
        let scaled = Vec2D::new(size.x / self.pixel_size, size.y / self.pixel_size);

        proof {
            lemma_scaled_size(size.x as int, self.pixel_size as int);
            lemma_scaled_size(size.y as int, self.pixel_size as int);
        }

        self.shader_data.projection.set_value(Ortho { width: scaled.x, height: scaled.y });
        self.framebuffers.bind(0, &mut self.queue);

        match self.framebuffers.resize(scaled, &mut self.queue) {
            Ok(()) => {},
            Err(_) => {
                proof {
                    assert(false);
                }
            },
        }

        self.size = scaled;

        proof {
            assert(shared_entries_wf(self.shader_data.projection@.entries));
        }
    }

    /// Starts a frame: binds the off-screen target and sizes the viewport to
    /// it.
    pub fn begin_draw_frame(&mut self)
        requires
            old(self).wf(),
        ensures
            final(self).wf(),
            final(self).framebuffers.bound == Some(0usize),
            final(self).framebuffers.framebuffers@ == old(self).framebuffers.framebuffers@,
            final(self).viewport.size == old(self).framebuffers.framebuffers@[0].size,
            final(self).shaders == old(self).shaders,
            final(self).base_data == old(self).base_data,
            final(self).post_data == old(self).post_data,
            final(self).shader_data == old(self).shader_data,
            final(self).size == old(self).size,
            final(self).pixel_size == old(self).pixel_size,
            final(self).font_render == old(self).font_render,
            final(self).queue@ == old(self).queue@ + old(self).framebuffers.bind_emits(0) + (
            if old(self).framebuffers.framebuffers@[0].size == old(self).viewport.size {
                Seq::<Command>::empty()
            } else {
                viewport_emits(old(self).framebuffers.framebuffers@[0].size)
            }),
    {
        self.framebuffers.bind(0, &mut self.queue);
        let size = self.framebuffers.active().size();
        self.viewport.resize(size, &mut self.queue);
    }

    /// Asks for the current render target to be cleared with `color`.
    pub fn clear(&mut self, color: Color)
        ensures
            final(self).queue@ == old(self).queue@.push(Command::Clear { color }),
            final(self).viewport == old(self).viewport,
            final(self).shaders == old(self).shaders,
            final(self).framebuffers == old(self).framebuffers,
            final(self).size == old(self).size,
            final(self).pixel_size == old(self).pixel_size,
            final(self).base_data == old(self).base_data,
            final(self).post_data == old(self).post_data,
            final(self).shader_data == old(self).shader_data,
            final(self).font_render == old(self).font_render,
            final(self).wf() == old(self).wf(),
    {
        self.queue.push(Command::Clear { color });
    }

    /// Draws `rect` with the base role, sampling the whole bound texture.
    pub fn draw_rect(&mut self, rect: Rect)
        requires
            old(self).wf(),
        ensures
            final(self).wf(),
            final(self).queue@ == old(self).queue@ + old(self).draw_rect_accept_emits(
                UsedShader::Base,
                rect,
                None,
                true,
            ),
            final(self).shaders@.programs == old(self).shaders@.programs,
            final(self).shaders@.used == Some(UsedShader::Base.spec_index()),
            final(self).base_data.draw_texture == old(self).base_data.draw_texture.spec_accept(),
            final(self).framebuffers == old(self).framebuffers,
            final(self).size == old(self).size,
            final(self).font_render == old(self).font_render,
    {
        self.draw_rect_accept(UsedShader::Base, rect, None, true);
    }

    /// Draws `rect` with the base role, sampling the given sub-rectangle.
    pub fn draw_rect_st(&mut self, rect: Rect, st: TexRect)
        requires
            old(self).wf(),
        ensures
            final(self).wf(),
            final(self).queue@ == old(self).queue@ + old(self).draw_rect_accept_emits(
                UsedShader::Base,
                rect,
                Some(st),
                true,
            ),
            final(self).shaders@.programs == old(self).shaders@.programs,
            final(self).shaders@.used == Some(UsedShader::Base.spec_index()),
            final(self).base_data.draw_texture == old(self).base_data.draw_texture.spec_accept(),
            final(self).framebuffers == old(self).framebuffers,
            final(self).size == old(self).size,
            final(self).font_render == old(self).font_render,
    {
        self.draw_rect_accept(UsedShader::Base, rect, Some(st), true);
    }

    /// What `draw_rect_accept` sends: the role's bind if it was not active,
    /// whichever shared values that program has not received, the role's own
    /// flag if it is stale, then the one quad.
    pub open spec fn draw_rect_accept_emits(
        self,
        shader: UsedShader,
        rect: Rect,
        st: Option<TexRect>,
        flip_v: bool,
    ) -> Seq<Command> {
        let idx = shader.spec_index();
        self.shaders@.use_shader_emits(idx) + self.shader_data.projection@.accept_emits(idx)
            + self.shader_data.texture0@.accept_emits(idx) + self.shader_data.col@.accept_emits(idx)
            + (if shader == UsedShader::Base {
            self.base_data.draw_texture.accept_emits()
        } else if shader == UsedShader::Post {
            self.post_data.frame.accept_emits()
        } else {
            Seq::<Command>::empty()
        }) + seq![Command::DrawQuad { rect, st, flip_v }]
    }

    /// Selects the role's program, pushes every stale uniform value the
    /// program consumes, and issues one textured-quad draw.  Uploads always
    /// precede the draw that depends on them, and each is sent only if its
    /// cached copy was stale.
    #[verifier::rlimit(100)]
    pub fn draw_rect_accept(
        &mut self,
        shader: UsedShader,
        rect: Rect,
        st: Option<TexRect>,
        flip_v: bool,
    )
        requires
            old(self).wf(),
        ensures
            final(self).wf(),
            final(self).queue@ == old(self).queue@ + old(self).draw_rect_accept_emits(
                shader,
                rect,
                st,
                flip_v,
            ),
            final(self).shaders@.programs == old(self).shaders@.programs,
            final(self).shaders@.used == Some(shader.spec_index()),
            final(self).shader_data.projection@ == old(self).shader_data.projection@.spec_accept(
                shader.spec_index(),
            ),
            final(self).shader_data.texture0@ == old(self).shader_data.texture0@.spec_accept(
                shader.spec_index(),
            ),
            final(self).shader_data.col@ == old(self).shader_data.col@.spec_accept(
                shader.spec_index(),
            ),
            final(self).base_data.draw_texture == (if shader == UsedShader::Base {
                old(self).base_data.draw_texture.spec_accept()
            } else {
                old(self).base_data.draw_texture
            }),
            final(self).post_data.frame == (if shader == UsedShader::Post {
                old(self).post_data.frame.spec_accept()
            } else {
                old(self).post_data.frame
            }),
            final(self).viewport == old(self).viewport,
            final(self).framebuffers == old(self).framebuffers,
            final(self).size == old(self).size,
            final(self).pixel_size == old(self).pixel_size,
            final(self).font_render == old(self).font_render,
    {
        let idx = shader.index();

        self.shaders.use_shader(idx, &mut self.queue);
        self.shader_data.accept(&self.shaders, &mut self.queue);

        if idx == 0 {
            self.base_data.draw_texture.accept(&self.shaders, &mut self.queue);
        }

        if idx == 2 {
            self.post_data.frame.accept(&self.shaders, &mut self.queue);
        }

        self.queue.push(Command::DrawQuad { rect, st, flip_v });

        proof {
            crate::uniform::lemma_find_entry(old(self).shader_data.projection@.entries, idx);
            crate::uniform::lemma_find_entry(old(self).shader_data.texture0@.entries, idx);
            crate::uniform::lemma_find_entry(old(self).shader_data.col@.entries, idx);
            assert(shared_entries_wf(self.shader_data.projection@.entries));
            assert(shared_entries_wf(self.shader_data.texture0@.entries));
            assert(shared_entries_wf(self.shader_data.col@.entries));
            assert(self.queue@ =~= old(self).queue@ + old(self).draw_rect_accept_emits(
                shader,
                rect,
                st,
                flip_v,
            ));
        }
    }

    /// Draws something drawable with the inherited defaults: white color,
    /// centered placement, the whole logical size as the frame, and the
    /// default text style.
    pub fn draw<D: crate::draw::Draw>(&mut self, drawable: &D)
        requires
            old(self).wf(),
        ensures
            final(self).wf(),
    {
        let params = crate::draw::DrawParameters {
            color: Color::white(),
            position: crate::position::Position::Center,
            frame: Rect { x: 0, y: 0, width: self.size.x, height: self.size.y },
            font_style: crate::draw::FontStyle::new(),
        };

        drawable.draw(self, params);
    }

    /// Sets the draw color for the following draws.
    pub fn set_color(&mut self, color: Color)
        ensures
            final(self).shader_data.col@ == old(self).shader_data.col@.spec_set_value(color),
            final(self).shader_data.projection == old(self).shader_data.projection,
            final(self).shader_data.texture0 == old(self).shader_data.texture0,
            final(self).viewport == old(self).viewport,
            final(self).shaders == old(self).shaders,
            final(self).framebuffers == old(self).framebuffers,
            final(self).size == old(self).size,
            final(self).pixel_size == old(self).pixel_size,
            final(self).base_data == old(self).base_data,
            final(self).post_data == old(self).post_data,
            final(self).font_render == old(self).font_render,
            final(self).queue == old(self).queue,
            old(self).wf() ==> final(self).wf(),
    {
        self.shader_data.col.set_value(color);

        proof {
            if old(self).wf() {
                assert(shared_entries_wf(self.shader_data.col@.entries));
            }
        }
    }

    /// Binds `texture` to the first sampler unit and tells the base role to
    /// sample it on the following draws.
    pub fn set_texture(&mut self, texture: &Texture)
        requires
            old(self).wf(),
        ensures
            final(self).wf(),
            final(self).shader_data.texture0@ == old(self).shader_data.texture0@.spec_set_value(
                0i32,
            ),
            final(self).base_data.draw_texture == old(self).base_data.draw_texture.spec_set_value(
                true,
            ),
            final(self).queue@ == old(self).queue@.push(
                Command::BindTexture { unit: 0u32, id: texture.id },
            ),
            final(self).shader_data.projection == old(self).shader_data.projection,
            final(self).shader_data.col == old(self).shader_data.col,
            final(self).viewport == old(self).viewport,
            final(self).shaders == old(self).shaders,
            final(self).framebuffers == old(self).framebuffers,
            final(self).size == old(self).size,
            final(self).pixel_size == old(self).pixel_size,
            final(self).post_data == old(self).post_data,
            final(self).font_render == old(self).font_render,
    {
        self.shader_data.texture0.set_value(0);

        let unit = self.shader_data.texture0.get();
        texture.bind(unit as u32, &mut self.queue);

        self.base_data.draw_texture.set_value(true);

        proof {
            assert(shared_entries_wf(self.shader_data.texture0@.entries));
        }
    }

    /// Tells the base role the following draws are untextured.
    pub fn unset_texture(&mut self)
        ensures
            final(self).base_data.draw_texture == old(self).base_data.draw_texture.spec_set_value(
                false,
            ),
            final(self).viewport == old(self).viewport,
            final(self).shaders == old(self).shaders,
            final(self).framebuffers == old(self).framebuffers,
            final(self).size == old(self).size,
            final(self).pixel_size == old(self).pixel_size,
            final(self).post_data == old(self).post_data,
            final(self).shader_data == old(self).shader_data,
            final(self).font_render == old(self).font_render,
            final(self).queue == old(self).queue,
            old(self).wf() ==> final(self).wf(),
    {
        self.base_data.draw_texture.set_value(false);
    }

    /// What `end_draw_frame` sends before the composite draw: the off-screen
    /// color textures bound to their units, the switch to the default
    /// target, the restored on-screen viewport, and the clear.
    pub open spec fn end_frame_prefix_emits(self) -> Seq<Command> {
        let fb = self.framebuffers.framebuffers@[0];
        let scaled = Vec2D {
            x: (self.size.x * self.pixel_size) as i32,
            y: (self.size.y * self.pixel_size) as i32,
        };
        Seq::new(
            fb.textures@.len(),
            |k: int| Command::BindTexture { unit: k as u32, id: fb.textures@[k].id },
        ) + self.framebuffers.bind_default_emits() + (if scaled == self.viewport.size {
            Seq::<Command>::empty()
        } else {
            viewport_emits(scaled)
        }) + seq![Command::Clear { color: Color(0, 0, 0, 255) }]
    }

    /// Ends a frame: binds the off-screen color texture as sampler input,
    /// switches to the on-screen target, restores its viewport, clears it,
    /// and draws one full-screen quad with the post role, which realizes the
    /// post-processing composite.
    pub fn end_draw_frame(&mut self)
        requires
            old(self).wf(),
            old(self).framebuffers.bound is Some,
        ensures
            final(self).wf(),
            final(self).framebuffers.bound is None,
            final(self).framebuffers.framebuffers@ == old(self).framebuffers.framebuffers@,
            final(self).shaders@.used == Some(UsedShader::Post.spec_index()),
            final(self).shaders@.programs == old(self).shaders@.programs,
            final(self).post_data.frame == old(self).post_data.frame.spec_accept(),
            final(self).base_data == old(self).base_data,
            final(self).shader_data.projection@ == old(self).shader_data.projection@.spec_accept(
                UsedShader::Post.spec_index(),
            ),
            final(self).shader_data.texture0@ == old(self).shader_data.texture0@.spec_accept(
                UsedShader::Post.spec_index(),
            ),
            final(self).shader_data.col@ == old(self).shader_data.col@.spec_accept(
                UsedShader::Post.spec_index(),
            ),
            final(self).viewport.size.x == old(self).size.x * old(self).pixel_size,
            final(self).viewport.size.y == old(self).size.y * old(self).pixel_size,
            final(self).size == old(self).size,
            final(self).pixel_size == old(self).pixel_size,
            final(self).font_render == old(self).font_render,
            final(self).queue@ == old(self).queue@ + old(self).end_frame_prefix_emits() + old(
                self,
            ).draw_rect_accept_emits(
                UsedShader::Post,
                Rect { x: -1i32, y: -1i32, width: 2i32, height: 2i32 },
                None,
                false,
            ),
    {
        let ghost fb = self.framebuffers.framebuffers@[0];
        let mut k: usize = 0;
        let textures_len = self.framebuffers.active().textures().len();

        while k < textures_len
            invariant
                old(self).wf(),
                0 <= k <= textures_len,
                self.viewport == old(self).viewport,
                self.shaders == old(self).shaders,
                self.framebuffers == old(self).framebuffers,
                self.size == old(self).size,
                self.pixel_size == old(self).pixel_size,
                self.base_data == old(self).base_data,
                self.post_data == old(self).post_data,
                self.shader_data == old(self).shader_data,
                self.font_render == old(self).font_render,
                textures_len == fb.textures@.len(),
                fb == old(self).framebuffers.framebuffers@[0],
                old(self).framebuffers.bound is Some,
                self.queue@ == old(self).queue@ + Seq::new(
                    k as nat,
                    |i: int| Command::BindTexture { unit: i as u32, id: fb.textures@[i].id },
                ),
            decreases textures_len - k,
        {
            proof {
                assert(Seq::new(
                    k as nat + 1,
                    |i: int| Command::BindTexture { unit: i as u32, id: fb.textures@[i].id },
                ) =~= Seq::new(
                    k as nat,
                    |i: int| Command::BindTexture { unit: i as u32, id: fb.textures@[i].id },
                ).push(Command::BindTexture { unit: k as u32, id: fb.textures@[k as int].id }));
            }

            let id = self.framebuffers.active().textures()[k].id;
            self.queue.push(Command::BindTexture { unit: k as u32, id });
            k = k + 1;
        }

        self.framebuffers.bind_default(&mut self.queue);
        self.viewport.resize(
            Vec2D::new(self.size.x * self.pixel_size, self.size.y * self.pixel_size),
            &mut self.queue,
        );
        self.clear(Color::black());

        proof {
            assert(self.queue@ =~= old(self).queue@ + old(self).end_frame_prefix_emits());
        }

        self.draw_rect_accept(
            UsedShader::Post,
            Rect::new(Vec2D::new(-1, -1), Vec2D::new(2, 2)),
            None,
            false,
        );

        proof {
            assert(self.queue@ =~= old(self).queue@ + old(self).end_frame_prefix_emits() + old(
                self,
            ).draw_rect_accept_emits(
                UsedShader::Post,
                Rect { x: -1i32, y: -1i32, width: 2i32, height: 2i32 },
                None,
                false,
            ));
        }
    }
}

} // verus!
