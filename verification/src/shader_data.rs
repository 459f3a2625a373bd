use vstd::prelude::*;
use crate::color::Color;
use crate::command::{Command, Ortho};
use crate::shaders::ShaderSet;
use crate::uniform::{SharedUniform, Uniform, UniformError};

verus! {

/// The logical shader roles the renderer drives: textured quads, glyph
/// rendering, and the final full-screen composite.  The role's position in
/// the shader set is fixed by the order `Render::new` registers them.
#[derive(Clone, Copy, Debug, PartialEq, Eq, Structural)]
pub enum UsedShader {
    Base,
    Font,
    Post,
}

impl UsedShader {
    /// The role's index in the shader set.
    pub open spec fn spec_index(&self) -> usize {
        match self {
            UsedShader::Base => 0,
            UsedShader::Font => 1,
            UsedShader::Post => 2,
        }
    }

    #[verifier::when_used_as_spec(spec_index)]
    pub fn index(&self) -> (i: usize)
        ensures
            i == self.spec_index(),
    {
        match self {
            UsedShader::Base => 0,
            UsedShader::Font => 1,
            UsedShader::Post => 2,
        }
    }
}

/// The locations one shared uniform name resolved to in the two programs
/// that consume it: the font role's and the base role's.
#[derive(Clone, Copy, Debug, PartialEq, Eq, Structural)]
pub struct SharedLocations {
    pub font: i32,
    pub base: i32,
}

impl SharedLocations {
    /// The `(location, program index)` pairs `make_shared` takes, font role
    /// first, as the renderer resolves them.
    pub open spec fn spec_pairs(&self) -> Seq<(i32, usize)> {
        seq![
            (self.font, UsedShader::Font.spec_index()),
            (self.base, UsedShader::Base.spec_index()),
        ]
    }

    fn pairs(&self) -> (r: Vec<(i32, usize)>)
        ensures
            r@ == self.spec_pairs(),
    {
        let mut r: Vec<(i32, usize)> = Vec::new();
        r.push((self.font, 1));
        r.push((self.base, 0));

        proof {
            assert(r@ =~= self.spec_pairs());
        }

        r
    }
}

/// Binding the two consumers of a shared uniform, written out: font role
/// first, base role second.
pub proof fn lemma_binds_pair(s: crate::shaders::ShaderSetView, locs: SharedLocations)
    ensures
        s.spec_after_binds(locs.spec_pairs()) == s.spec_use_shader(1).spec_use_shader(0),
        s.binds_emits(locs.spec_pairs()) == s.use_shader_emits(1) + s.spec_use_shader(
            1,
        ).use_shader_emits(0),
{
    let p = locs.spec_pairs();
    let p2 = p.drop_first();
    let s1 = s.spec_use_shader(1);

    assert(p[0] == (locs.font, 1usize));
    assert(p2 =~= seq![(locs.base, UsedShader::Base.spec_index())]);
    assert(p2[0] == (locs.base, 0usize));
    assert(p2.drop_first() =~= Seq::<(i32, usize)>::empty());
    assert(s1.spec_use_shader(0).spec_after_binds(p2.drop_first()) == s1.spec_use_shader(0));
    assert(s1.spec_use_shader(0).binds_emits(p2.drop_first()) == Seq::<Command>::empty());
    assert(s1.spec_after_binds(p2) == s1.spec_use_shader(0));
    assert(s1.binds_emits(p2) =~= s1.use_shader_emits(0));
    assert(s.spec_after_binds(p) == s1.spec_use_shader(0));
    assert(s.binds_emits(p) =~= s.use_shader_emits(1) + s1.use_shader_emits(0));
}

/// Location validity of the two pairs is exactly validity at each position.
proof fn lemma_pair_locations(locs: SharedLocations)
    ensures
        (forall|k: int|
            0 <= k < locs.spec_pairs().len() ==> #[trigger] locs.spec_pairs()[k].0 >= 0) <==> (
        locs.font >= 0 && locs.base >= 0),
{
    let p = locs.spec_pairs();
    assert(p[0].0 == locs.font);
    assert(p[1].0 == locs.base);

    if locs.font >= 0 && locs.base >= 0 {
        assert forall|k: int| 0 <= k < p.len() implies #[trigger] p[k].0 >= 0 by {
            if k == 0 {
                assert(p[k].0 == locs.font);
            } else {
                assert(k == 1);
                assert(p[k].0 == locs.base);
            }
        }
    }
}

/// The uniform state owned by the base (textured quad) role alone.
pub struct BaseData {
    pub draw_texture: Uniform<bool>,
}

impl BaseData {
    /// Resolves the base role's "is a texture bound" flag: binds the base
    /// program and wraps the location the caller resolved against it.
    pub fn new(shaders: &mut ShaderSet, location: i32, queue: &mut Vec<Command>) -> (r: Result<
        BaseData,
        UniformError,
    >)
        requires
            old(shaders)@.programs.len() > UsedShader::Base.spec_index(),
        ensures
            final(shaders)@ == old(shaders)@.spec_use_shader(UsedShader::Base.spec_index()),
            final(queue)@ == old(queue)@ + old(shaders)@.use_shader_emits(
                UsedShader::Base.spec_index(),
            ),
            r is Ok <==> location >= 0,
            r matches Ok(d) ==> d.draw_texture == (Uniform {
                value: false,
                location,
                shader: old(shaders)@.programs[UsedShader::Base.spec_index() as int].id,
                accepted: false,
            }),
            r matches Err(e) ==> e == UniformError::IncorrectLocation,
    {
        shaders.use_shader(UsedShader::Base.index(), queue);

        match shaders.make_uniform(false, location) {
            Ok(draw_texture) => Ok(BaseData { draw_texture }),
            Err(e) => Err(e),
        }
    }
}

/// The uniform state owned by the post-processing role alone.
pub struct PostData {
    pub frame: Uniform<i32>,
}

impl PostData {
    /// Resolves the post role's source sampler unit: binds the post program
    /// and wraps the location the caller resolved against it.
    pub fn new(shaders: &mut ShaderSet, location: i32, queue: &mut Vec<Command>) -> (r: Result<
        PostData,
        UniformError,
    >)
        requires
            old(shaders)@.programs.len() > UsedShader::Post.spec_index(),
        ensures
            final(shaders)@ == old(shaders)@.spec_use_shader(UsedShader::Post.spec_index()),
            final(queue)@ == old(queue)@ + old(shaders)@.use_shader_emits(
                UsedShader::Post.spec_index(),
            ),
            r is Ok <==> location >= 0,
            r matches Ok(d) ==> d.frame == (Uniform {
                value: 0i32,
                location,
                shader: old(shaders)@.programs[UsedShader::Post.spec_index() as int].id,
                accepted: false,
            }),
            r matches Err(e) ==> e == UniformError::IncorrectLocation,
    {
        shaders.use_shader(UsedShader::Post.index(), queue);

        match shaders.make_uniform(0, location) {
            Ok(frame) => Ok(PostData { frame }),
            Err(e) => Err(e),
        }
    }
}

/// The values every drawing role needs identically: the projection matrix,
/// the sampler unit of the bound texture, and the draw color.  Each is one
/// shared uniform consumed by the font and base roles.
pub struct ShaderData {
    pub projection: SharedUniform<Ortho>,
    pub texture0: SharedUniform<i32>,
    pub col: SharedUniform<Color>,
}

impl ShaderData {
    /// Builds the three shared uniforms.  Each construction binds the font
    /// role and then the base role, as the locations were resolved, so the
    /// base program ends up active.
    pub fn new(
        shaders: &mut ShaderSet,
        projection: Ortho,
        projection_locs: SharedLocations,
        texture0_locs: SharedLocations,
        col_locs: SharedLocations,
        queue: &mut Vec<Command>,
    ) -> (r: Result<ShaderData, UniformError>)
        requires
            old(shaders)@.programs.len() > UsedShader::Font.spec_index(),
        ensures
            ({
                let s0 = old(shaders)@;
                let e1 = s0.binds_emits(projection_locs.spec_pairs());
                let s1 = s0.spec_after_binds(projection_locs.spec_pairs());
                let e2 = s1.binds_emits(texture0_locs.spec_pairs());
                let s2 = s1.spec_after_binds(texture0_locs.spec_pairs());
                let e3 = s2.binds_emits(col_locs.spec_pairs());
                let s3 = s2.spec_after_binds(col_locs.spec_pairs());
                let ok1 = projection_locs.font >= 0 && projection_locs.base >= 0;
                let ok2 = texture0_locs.font >= 0 && texture0_locs.base >= 0;
                let ok3 = col_locs.font >= 0 && col_locs.base >= 0;
                &&& r is Ok <==> ok1 && ok2 && ok3
                &&& final(shaders)@ == (if !ok1 {
                    s1
                } else if !ok2 {
                    s2
                } else {
                    s3
                })
                &&& final(queue)@ == old(queue)@ + (if !ok1 {
                    e1
                } else if !ok2 {
                    e1 + e2
                } else {
                    e1 + e2 + e3
                })
                &&& r matches Ok(d) ==> {
                    &&& d.projection@.value == projection
                    &&& d.projection@.entries =~= seq![
                        crate::uniform::UniformData {
                            location: projection_locs.font,
                            shader_idx: 1,
                            accepted: false,
                        },
                        crate::uniform::UniformData {
                            location: projection_locs.base,
                            shader_idx: 0,
                            accepted: false,
                        },
                    ]
                    &&& d.texture0@.value == 0i32
                    &&& d.texture0@.entries =~= seq![
                        crate::uniform::UniformData {
                            location: texture0_locs.font,
                            shader_idx: 1,
                            accepted: false,
                        },
                        crate::uniform::UniformData {
                            location: texture0_locs.base,
                            shader_idx: 0,
                            accepted: false,
                        },
                    ]
                    &&& d.col@.value == (Color(255, 255, 255, 255))
                    &&& d.col@.entries =~= seq![
                        crate::uniform::UniformData {
                            location: col_locs.font,
                            shader_idx: 1,
                            accepted: false,
                        },
                        crate::uniform::UniformData {
                            location: col_locs.base,
                            shader_idx: 0,
                            accepted: false,
                        },
                    ]
                }
                &&& r matches Err(e) ==> e == UniformError::IncorrectLocation
            }),
    {
        let projection_u = match shaders.make_shared(projection, projection_locs.pairs(), queue) {
            Ok(u) => u,
            Err(e) => {
                proof {
                    lemma_pair_locations(projection_locs);
                }

                return Err(e);
            },
        };

        proof {
            assert(projection_locs.spec_pairs()[0].0 >= 0);
            assert(projection_locs.spec_pairs()[1].0 >= 0);
        }

        proof {
            crate::shaders::lemma_after_binds_programs(
                old(shaders)@,
                projection_locs.spec_pairs(),
            );
        }

        let texture0_u = match shaders.make_shared(0, texture0_locs.pairs(), queue) {
            Ok(u) => u,
            Err(e) => {
                proof {
                    lemma_pair_locations(texture0_locs);
                }

                return Err(e);
            },
        };

        proof {
            assert(texture0_locs.spec_pairs()[0].0 >= 0);
            assert(texture0_locs.spec_pairs()[1].0 >= 0);
        }

        proof {
            crate::shaders::lemma_after_binds_programs(
                old(shaders)@.spec_after_binds(projection_locs.spec_pairs()),
                texture0_locs.spec_pairs(),
            );
        }

        let col_u = match shaders.make_shared(Color::white(), col_locs.pairs(), queue) {
            Ok(u) => u,
            Err(e) => {
                proof {
                    lemma_pair_locations(col_locs);
                }

                return Err(e);
            },
        };

        proof {
            assert(col_locs.spec_pairs()[0].0 >= 0);
            assert(col_locs.spec_pairs()[1].0 >= 0);
        }

        Ok(ShaderData { projection: projection_u, texture0: texture0_u, col: col_u })
    }

    /// Pushes whichever of the three shared values the active program has
    /// not received yet.
    pub fn accept(&mut self, shader: &ShaderSet, queue: &mut Vec<Command>)
        requires
            shader@.used is Some,
        ensures
            ({
                let used = shader@.used->0;
                &&& final(self).projection@ == old(self).projection@.spec_accept(used)
                &&& final(self).texture0@ == old(self).texture0@.spec_accept(used)
                &&& final(self).col@ == old(self).col@.spec_accept(used)
                &&& final(queue)@ == old(queue)@ + old(self).projection@.accept_emits(used) + old(
                    self,
                ).texture0@.accept_emits(used) + old(self).col@.accept_emits(used)
            }),
    {
        self.projection.accept(shader, queue);
        self.texture0.accept(shader, queue);
        self.col.accept(shader, queue);

        proof {
            let used = shader@.used->0;
            assert(queue@ =~= old(queue)@ + old(self).projection@.accept_emits(used) + old(
                self,
            ).texture0@.accept_emits(used) + old(self).col@.accept_emits(used));
        }
    }
}

} // verus!
