use vstd::prelude::*;
use crate::accept::Accept;
use crate::command::Command;
use crate::uniform::{SharedUniform, Uniform, UniformError};

verus! {

#[derive(Clone, Debug, PartialEq, Eq)]
pub enum ShaderError {
    /// Shader source text could not be loaded.
    IOError(String),
    /// The GPU rejected a shader, with its diagnostic text.
    CompileError(String),
    /// The GPU rejected a program link, with its diagnostic text.
    LinkError(String),
}

/// Types the compile status the caller read back for a shader: a cleared
/// status becomes the typed error, carrying the driver's diagnostic text.
pub fn check_compile(success: bool, log: String) -> (r: Result<(), ShaderError>)
    ensures
        r is Ok <==> success,
        r matches Err(e) ==> e == ShaderError::CompileError(log),
{
    if success {
        Ok(())
    } else {
        Err(ShaderError::CompileError(log))
    }
}

/// Types the link status the caller read back for a program, as
/// [`check_compile`] does for a shader.
pub fn check_link(success: bool, log: String) -> (r: Result<(), ShaderError>)
    ensures
        r is Ok <==> success,
        r matches Err(e) ==> e == ShaderError::LinkError(log),
{
    if success {
        Ok(())
    } else {
        Err(ShaderError::LinkError(log))
    }
}

/// One compiled and linked shader program, named by its handle.
#[derive(Clone, Copy, Debug, PartialEq, Eq, Structural)]
pub struct ShaderProgram {
    pub id: u32,
}

impl ShaderProgram {
    /// Wraps the handle of a program the GPU shell compiled and linked.  The
    /// handle must not be 0, which stands for "no program".
    pub fn new(id: u32) -> (p: ShaderProgram)
        requires
            id != 0,
        ensures
            p == (ShaderProgram { id }),
    {
        ShaderProgram { id }
    }

    pub fn id(&self) -> (r: u32)
        ensures
            r == self.id,
    {
        self.id
    }
}

/// The mathematical state of a [`ShaderSet`].
pub struct ShaderSetView {
    pub programs: Seq<ShaderProgram>,
    pub used: Option<usize>,
}

impl ShaderSetView {
    /// The active index, if present, names a program of the set.
    pub open spec fn wf(self) -> bool {
        self.used matches Some(i) ==> i < self.programs.len()
    }

    /// The state after `use_shader(idx)`.
    pub open spec fn spec_use_shader(self, idx: usize) -> ShaderSetView {
        ShaderSetView { programs: self.programs, used: Some(idx) }
    }

    /// What `use_shader(idx)` sends: one bind when `idx` differs from the
    /// active index, nothing when it is already active.
    pub open spec fn use_shader_emits(self, idx: usize) -> Seq<Command> {
        if self.used == Some(idx) {
            Seq::empty()
        } else {
            seq![Command::BindProgram { id: self.programs[idx as int].id }]
        }
    }

    /// The state after `unuse_shader()`.
    pub open spec fn spec_unuse_shader(self) -> ShaderSetView {
        ShaderSetView { programs: self.programs, used: None }
    }

    /// What `unuse_shader()` sends: the unbind, unless nothing was active.
    pub open spec fn unuse_shader_emits(self) -> Seq<Command> {
        if self.used is Some {
            seq![Command::BindProgram { id: 0u32 }]
        } else {
            Seq::empty()
        }
    }

    /// The state after binding each listed program in turn.
    pub open spec fn spec_after_binds(self, entries: Seq<(i32, usize)>) -> ShaderSetView
        decreases entries.len(),
    {
        if entries.len() == 0 {
            self
        } else {
            self.spec_use_shader(entries[0].1).spec_after_binds(entries.drop_first())
        }
    }

    /// What binding each listed program in turn sends.
    pub open spec fn binds_emits(self, entries: Seq<(i32, usize)>) -> Seq<Command>
        decreases entries.len(),
    {
        if entries.len() == 0 {
            Seq::empty()
        } else {
            self.use_shader_emits(entries[0].1) + self.spec_use_shader(
                entries[0].1,
            ).binds_emits(entries.drop_first())
        }
    }

    /// What deleting the whole set sends: the unbind, then one delete per
    /// program, in order.
    pub open spec fn delete_emits(self) -> Seq<Command> {
        self.unuse_shader_emits() + self.programs.map_values(
            |p: ShaderProgram| Command::DeleteProgram { id: p.id },
        )
    }
}

/// Binding programs never changes which programs the set holds.
pub proof fn lemma_after_binds_programs(s: ShaderSetView, es: Seq<(i32, usize)>)
    ensures
        s.spec_after_binds(es).programs == s.programs,
    decreases es.len(),
{
    if es.len() > 0 {
        lemma_after_binds_programs(s.spec_use_shader(es[0].1), es.drop_first());
    }
}

/// Binding a sequence of programs, one more at the end.
proof fn lemma_binds_snoc(s: ShaderSetView, es: Seq<(i32, usize)>, e: (i32, usize))
    ensures
        s.spec_after_binds(es.push(e)) == s.spec_after_binds(es).spec_use_shader(e.1),
        s.binds_emits(es.push(e)) == s.binds_emits(es) + s.spec_after_binds(es).use_shader_emits(
            e.1,
        ),
    decreases es.len(),
{
    if es.len() == 0 {
        assert(es.push(e)[0] == e);
        assert(es.push(e).drop_first() =~= Seq::<(i32, usize)>::empty());
        assert(s.spec_use_shader(e.1).spec_after_binds(es.push(e).drop_first())
            == s.spec_use_shader(e.1));
        assert(s.spec_use_shader(e.1).binds_emits(es.push(e).drop_first())
            == Seq::<Command>::empty());
        assert(s.binds_emits(es.push(e)) == s.use_shader_emits(e.1) + s.spec_use_shader(
            e.1,
        ).binds_emits(es.push(e).drop_first()));
        assert(s.binds_emits(es) == Seq::<Command>::empty());
        assert(s.binds_emits(es.push(e)) =~= s.binds_emits(es) + s.use_shader_emits(e.1));
    } else {
        let next = s.spec_use_shader(es[0].1);
        assert(es.push(e)[0] == es[0]);
        assert(es.push(e).drop_first() =~= es.drop_first().push(e));
        lemma_binds_snoc(next, es.drop_first(), e);
        assert(s.spec_after_binds(es.push(e)) == next.spec_after_binds(es.drop_first().push(e)));
        assert(s.spec_after_binds(es) == next.spec_after_binds(es.drop_first()));
        assert(s.binds_emits(es.push(e)) == s.use_shader_emits(es[0].1) + next.binds_emits(
            es.drop_first().push(e),
        ));
        assert(s.binds_emits(es) == s.use_shader_emits(es[0].1) + next.binds_emits(
            es.drop_first(),
        ));
        assert(s.binds_emits(es.push(e)) =~= s.binds_emits(es) + s.spec_after_binds(
            es,
        ).use_shader_emits(e.1));
    }
}

/// An ordered collection of shader programs, and the index of the one that
/// is active.  Every program bind goes through this type, so the cached
/// active index always agrees with the GPU and redundant binds can be
/// dropped.
pub struct ShaderSet {
    pub shaders: Vec<ShaderProgram>,
    pub used: Option<usize>,
}

impl View for ShaderSet {
    type V = ShaderSetView;

    open spec fn view(&self) -> ShaderSetView {
        ShaderSetView { programs: self.shaders@, used: self.used }
    }
}

impl ShaderSet {
    pub fn new() -> (s: ShaderSet)
        ensures
            s@.programs.len() == 0,
            s@.used is None,
    {
        ShaderSet { shaders: Vec::new(), used: None }
    }

    /// Appends a program; the active index does not change.
    pub fn add(&mut self, program: ShaderProgram)
        ensures
            final(self)@.programs == old(self)@.programs.push(program),
            final(self)@.used == old(self)@.used,
    {
        self.shaders.push(program);
    }

    pub fn len(&self) -> (n: usize)
        ensures
            n == self@.programs.len(),
    {
        self.shaders.len()
    }

    /// The active program, if one is active.
    pub fn active(&self) -> (r: Option<&ShaderProgram>)
        requires
            self@.wf(),
        ensures
            match self@.used {
                Some(i) => r matches Some(p) && *p == self@.programs[i as int],
                None => r is None,
            },
    {
        match self.used {
            Some(idx) => Some(&self.shaders[idx]),
            None => None,
        }
    }

    pub fn used(&self) -> (r: Option<usize>)
        ensures
            r == self@.used,
    {
        self.used
    }

    /// Makes the program at `idx` active.  The bind is sent only when `idx`
    /// differs from the active index: binding the active program again is
    /// free.
    pub fn use_shader(&mut self, idx: usize, queue: &mut Vec<Command>)
        requires
            idx < old(self)@.programs.len(),
        ensures
            final(self)@ == old(self)@.spec_use_shader(idx),
            final(queue)@ == old(queue)@ + old(self)@.use_shader_emits(idx),
    {
        match self.used {
            Some(i) if i == idx => {
                proof {
                    assert(old(queue)@ + old(self)@.use_shader_emits(idx) =~= old(queue)@);
                }
            },
            _ => {
                queue.push(Command::BindProgram { id: self.shaders[idx].id });
                self.used = Some(idx);
            },
        }
    }

    /// Unbinds any active program.
    pub fn unuse_shader(&mut self, queue: &mut Vec<Command>)
        ensures
            final(self)@ == old(self)@.spec_unuse_shader(),
            final(queue)@ == old(queue)@ + old(self)@.unuse_shader_emits(),
    {
        if self.used.is_some() {
            queue.push(Command::BindProgram { id: 0 });
            self.used = None;
        } else {
            proof {
                assert(old(queue)@ + old(self)@.unuse_shader_emits() =~= old(queue)@);
            }
        }
    }

    /// A uniform of the active program, at a location the caller resolved
    /// against that program.  Asking with no program active is a caller
    /// error; a negative location is the typed resolution failure.
    pub fn make_uniform<T: Accept>(&self, value: T, location: i32) -> (r: Result<
        Uniform<T>,
        UniformError,
    >)
        requires
            self@.wf(),
            self@.used is Some,
        ensures
            r is Ok <==> location >= 0,
            r matches Ok(u) ==> u == (Uniform {
                value,
                location,
                shader: self@.programs[self@.used->0 as int].id,
                accepted: false,
            }),
            r matches Err(e) ==> e == UniformError::IncorrectLocation,
    {
        match self.active() {
            Some(shader) => Uniform::new(value, location, shader),
            None => {
                proof {
                    assert(false);
                }
                Err(UniformError::IncorrectLocation)
            },
        }
    }

    /// A shared uniform from one `(location, program index)` pair per
    /// consuming program.  Each listed program is bound in turn, as it was
    /// when the locations were resolved, so the last listed program ends up
    /// active; a negative location fails the construction.
    pub fn make_shared<T: Accept>(
        &mut self,
        value: T,
        shader_data: Vec<(i32, usize)>,
        queue: &mut Vec<Command>,
    ) -> (r: Result<SharedUniform<T>, UniformError>)
        requires
            forall|k: int|
                0 <= k < shader_data@.len() ==> #[trigger] shader_data@[k].1 < old(
                    self,
                )@.programs.len(),
        ensures
            final(self)@ == old(self)@.spec_after_binds(shader_data@),
            final(queue)@ == old(queue)@ + old(self)@.binds_emits(shader_data@),
            r is Ok <==> (forall|k: int|
                0 <= k < shader_data@.len() ==> #[trigger] shader_data@[k].0 >= 0),
            r matches Ok(u) ==> {
                &&& u@.value == value
                &&& u@.entries.len() == shader_data@.len()
                &&& forall|k: int|
                    0 <= k < shader_data@.len() ==> u@.entries[k] == (crate::uniform::UniformData {
                        location: shader_data@[k].0,
                        shader_idx: shader_data@[k].1,
                        accepted: false,
                    })
            },
            r matches Err(e) ==> e == UniformError::IncorrectLocation,
    {
        let mut i: usize = 0;

        while i < shader_data.len()
            invariant
                0 <= i <= shader_data@.len(),
                forall|k: int|
                    0 <= k < shader_data@.len() ==> #[trigger] shader_data@[k].1 < old(
                        self,
                    )@.programs.len(),
                self@.programs == old(self)@.programs,
                self@ == old(self)@.spec_after_binds(shader_data@.take(i as int)),
                queue@ == old(queue)@ + old(self)@.binds_emits(shader_data@.take(i as int)),
            decreases shader_data@.len() - i,
        {
            let (_, idx) = shader_data[i];

            proof {
                assert(shader_data@.take(i as int + 1) =~= shader_data@.take(i as int).push(
                    shader_data@[i as int],
                ));
                lemma_binds_snoc(old(self)@, shader_data@.take(i as int), shader_data@[i as int]);
            }

            self.use_shader(idx, queue);
            i = i + 1;
        }

        proof {
            assert(shader_data@.take(shader_data@.len() as int) =~= shader_data@);
        }

        SharedUniform::new(value, shader_data)
    }

    /// Destroys the whole set: unbinds any active program, then deletes
    /// every program exactly once.  Consuming the set is what makes a second
    /// deletion impossible.
    pub fn delete(self, queue: &mut Vec<Command>)
        ensures
            final(queue)@ == old(queue)@ + self@.delete_emits(),
    {
        let ghost v = self@;
        let ShaderSet { shaders, used } = self;
        let mut rest = ShaderSet { shaders, used };

        rest.unuse_shader(queue);

        let ghost deletes = v.programs.map_values(
            |p: ShaderProgram| Command::DeleteProgram { id: p.id },
        );
        let mut i: usize = 0;

        while i < rest.shaders.len()
            invariant
                0 <= i <= rest.shaders@.len(),
                rest.shaders@ == v.programs,
                deletes == v.programs.map_values(
                    |p: ShaderProgram| Command::DeleteProgram { id: p.id },
                ),
                queue@ == old(queue)@ + v.unuse_shader_emits() + deletes.take(i as int),
            decreases rest.shaders@.len() - i,
        {
            proof {
                assert(deletes.take(i as int + 1) =~= deletes.take(i as int).push(
                    deletes[i as int],
                ));
            }

            queue.push(Command::DeleteProgram { id: rest.shaders[i].id });
            i = i + 1;
        }

        proof {
            assert(deletes.take(deletes.len() as int) =~= deletes);
            assert(old(queue)@ + v.unuse_shader_emits() + deletes =~= old(queue)@
                + v.delete_emits());
        }
    }
}

} // verus!
