use vstd::prelude::*;
use crate::accept::Accept;
use crate::command::Command;
use crate::shaders::{ShaderProgram, ShaderSet};

verus! {

#[derive(Clone, Copy, Debug, PartialEq, Eq)]
pub enum UniformError {
    /// A uniform name did not resolve to a location in its program.
    IncorrectLocation,
}

/// A typed value bound to one location of one program.  `accepted` records
/// whether the GPU-side copy matches `value`; an upload is issued only while
/// it does not.
pub struct Uniform<T: Accept> {
    pub value: T,
    pub location: i32,
    pub shader: u32,
    pub accepted: bool,
}

impl<T: Accept> Uniform<T> {
    /// The state after `set_value(v)`: a value equal to the cached one leaves
    /// the uniform untouched, any other replaces it and clears `accepted`.
    pub open spec fn spec_set_value(self, v: T) -> Uniform<T> {
        if v == self.value {
            self
        } else {
            Uniform { value: v, accepted: false, ..self }
        }
    }

    /// The state after `accept`: the GPU-side copy is synchronized.
    pub open spec fn spec_accept(self) -> Uniform<T> {
        Uniform { accepted: true, ..self }
    }

    /// What `accept` sends: one upload while out of sync, nothing otherwise.
    pub open spec fn accept_emits(self) -> Seq<Command> {
        if self.accepted {
            Seq::empty()
        } else {
            seq![Command::Upload { location: self.location, value: self.value.uniform_value() }]
        }
    }

    /// A uniform for a location resolved against `shader`; a negative
    /// location means the name was absent from the program, which is an
    /// error, not a warning.
    pub fn new(value: T, location: i32, shader: &ShaderProgram) -> (r: Result<
        Uniform<T>,
        UniformError,
    >)
        ensures
            r is Ok <==> location >= 0,
            r matches Ok(u) ==> u == (Uniform { value, location, shader: shader.id, accepted: false }),
            r matches Err(e) ==> e == UniformError::IncorrectLocation,
    {
        if location < 0 {
            return Err(UniformError::IncorrectLocation);
        }

        Ok(Uniform { value, location, shader: shader.id, accepted: false })
    }

    /// Replaces the cached value; setting the value it already holds is a
    /// no-op and in particular does not clear the synchronized flag.
    pub fn set_value(&mut self, value: T)
        ensures
            *final(self) == old(self).spec_set_value(value),
    {
        if value.same(&self.value) {
            return;
        }

        self.value = value;
        self.accepted = false;
    }

    /// Uploads the value if it is out of sync.  The owning program must be
    /// the active one: uploading through a foreign program's location would
    /// desynchronize the cache, so a caller that gets this wrong is rejected.
    pub fn accept(&mut self, shader: &ShaderSet, queue: &mut Vec<Command>)
        requires
            shader@.wf(),
            shader@.used matches Some(i) && shader@.programs[i as int].id == old(self).shader,
        ensures
            *final(self) == old(self).spec_accept(),
            final(queue)@ == old(queue)@ + old(self).accept_emits(),
    {
        if !self.accepted {
            self.direct_accept(shader, queue);
        }

        proof {
            if old(self).accepted {
                assert(old(queue)@ + old(self).accept_emits() =~= old(queue)@);
            }
        }
    }

    /// Replaces the cached value and uploads it at once.
    pub fn set(&mut self, value: T, shader: &ShaderSet, queue: &mut Vec<Command>)
        requires
            shader@.wf(),
            shader@.used matches Some(i) && shader@.programs[i as int].id == old(self).shader,
        ensures
            *final(self) == (Uniform { value, accepted: true, ..*old(self) }),
            final(queue)@ == old(queue)@.push(
                Command::Upload { location: old(self).location, value: value.uniform_value() },
            ),
    {
        self.value = value;
        self.direct_accept(shader, queue);
    }

    fn direct_accept(&mut self, shader: &ShaderSet, queue: &mut Vec<Command>)
        requires
            shader@.wf(),
            shader@.used matches Some(i) && shader@.programs[i as int].id == old(self).shader,
        ensures
            *final(self) == (Uniform { accepted: true, ..*old(self) }),
            final(queue)@ == old(queue)@.push(
                Command::Upload {
                    location: old(self).location,
                    value: old(self).value.uniform_value(),
                },
            ),
    {
        queue.push(self.value.upload(self.location));
        self.accepted = true;
    }
}

impl<T: Accept> Uniform<T> {
    pub fn get(&self) -> (v: T)
        ensures
            v == self.value,
    {
        self.value
    }
}

/// The per-program state of a shared uniform: the location the value has in
/// that program, the program's index in the shader set, and whether the
/// GPU-side copy for that program is synchronized.
#[derive(Clone, Copy, Debug, PartialEq, Eq, Structural)]
pub struct UniformData {
    pub location: i32,
    pub shader_idx: usize,
    pub accepted: bool,
}

/// The entries with every synchronized flag cleared.
pub open spec fn clear_flags(entries: Seq<UniformData>) -> Seq<UniformData> {
    entries.map_values(
        |d: UniformData| UniformData { location: d.location, shader_idx: d.shader_idx, accepted: false },
    )
}

/// The position of the first entry consuming for program `idx`, if any.
pub open spec fn find_entry(entries: Seq<UniformData>, idx: usize) -> Option<int>
    decreases entries.len(),
{
    if entries.len() == 0 {
        None
    } else if entries[0].shader_idx == idx {
        Some(0)
    } else {
        match find_entry(entries.drop_first(), idx) {
            Some(k) => Some(k + 1),
            None => None,
        }
    }
}

/// What `find_entry` returns is the first match.
pub proof fn lemma_find_entry(entries: Seq<UniformData>, idx: usize)
    ensures
        match find_entry(entries, idx) {
            Some(k) => 0 <= k < entries.len() && entries[k].shader_idx == idx && (forall|j: int|
                0 <= j < k ==> entries[j].shader_idx != idx),
            None => forall|j: int| 0 <= j < entries.len() ==> entries[j].shader_idx != idx,
        },
    decreases entries.len(),
{
    if entries.len() > 0 && entries[0].shader_idx != idx {
        lemma_find_entry(entries.drop_first(), idx);

        match find_entry(entries.drop_first(), idx) {
            Some(k) => {
                assert(entries[k + 1] == entries.drop_first()[k]);
                assert forall|j: int| 0 <= j < k + 1 implies entries[j].shader_idx != idx by {
                    if j > 0 {
                        assert(entries[j] == entries.drop_first()[j - 1]);
                    }
                }
            },
            None => {
                assert forall|j: int|
                    0 <= j < entries.len() implies entries[j].shader_idx != idx by {
                    if j > 0 {
                        assert(entries[j] == entries.drop_first()[j - 1]);
                    }
                }
            },
        }
    }
}

/// The mathematical state of a [`SharedUniform`].
pub struct SharedUniformView<T> {
    pub value: T,
    pub entries: Seq<UniformData>,
}

impl<T: Accept> SharedUniformView<T> {
    /// The state after `set_value(v)`: a value equal to the cached one leaves
    /// everything untouched, any other replaces it and clears every
    /// program's synchronized flag.
    pub open spec fn spec_set_value(self, v: T) -> SharedUniformView<T> {
        if v == self.value {
            self
        } else {
            SharedUniformView { value: v, entries: clear_flags(self.entries) }
        }
    }

    /// The state after `accept` while program `used` is active: only that
    /// program's flag is set, and only if it has an entry.
    pub open spec fn spec_accept(self, used: usize) -> SharedUniformView<T> {
        match find_entry(self.entries, used) {
            Some(k) => SharedUniformView {
                value: self.value,
                entries: self.entries.update(
                    k,
                    UniformData {
                        location: self.entries[k].location,
                        shader_idx: self.entries[k].shader_idx,
                        accepted: true,
                    },
                ),
            },
            None => self,
        }
    }

    /// What `accept` sends while program `used` is active: one upload at
    /// that program's location while its copy is out of sync, else nothing.
    pub open spec fn accept_emits(self, used: usize) -> Seq<Command> {
        match find_entry(self.entries, used) {
            Some(k) => if self.entries[k].accepted {
                Seq::empty()
            } else {
                seq![
                    Command::Upload {
                        location: self.entries[k].location,
                        value: self.value.uniform_value(),
                    },
                ]
            },
            None => Seq::empty(),
        }
    }
}

/// One logical value consumed by several programs, each through its own
/// location and with its own synchronized flag.  The value itself is single
/// sourced: there is no per-program divergence, only per-program staleness.
pub struct SharedUniform<T: Accept> {
    pub value: T,
    pub data: Vec<UniformData>,
}

impl<T: Accept> View for SharedUniform<T> {
    type V = SharedUniformView<T>;

    open spec fn view(&self) -> SharedUniformView<T> {
        SharedUniformView { value: self.value, entries: self.data@ }
    }
}

impl<T: Accept> SharedUniform<T> {
    /// A shared uniform from one `(location, program index)` pair per
    /// consuming program; fails if any location is negative.
    pub fn new(value: T, shader_data: Vec<(i32, usize)>) -> (r: Result<
        SharedUniform<T>,
        UniformError,
    >)
        ensures
            r is Ok <==> (forall|k: int| 0 <= k < shader_data@.len() ==> shader_data@[k].0 >= 0),
            r matches Ok(u) ==> {
                &&& u@.value == value
                &&& u@.entries.len() == shader_data@.len()
                &&& forall|k: int|
                    0 <= k < shader_data@.len() ==> u@.entries[k] == (UniformData {
                        location: shader_data@[k].0,
                        shader_idx: shader_data@[k].1,
                        accepted: false,
                    })
            },
            r matches Err(e) ==> e == UniformError::IncorrectLocation,
    {
        let mut data: Vec<UniformData> = Vec::new();
        let mut i: usize = 0;

        while i < shader_data.len()
            invariant
                0 <= i <= shader_data@.len(),
                data@.len() == i,
                forall|k: int| 0 <= k < i ==> shader_data@[k].0 >= 0,
                forall|k: int|
                    0 <= k < i ==> data@[k] == (UniformData {
                        location: shader_data@[k].0,
                        shader_idx: shader_data@[k].1,
                        accepted: false,
                    }),
            decreases shader_data@.len() - i,
        {
            let (location, shader_idx) = shader_data[i];

            if location < 0 {
                return Err(UniformError::IncorrectLocation);
            }

            data.push(UniformData { location, shader_idx, accepted: false });
            i = i + 1;
        }

        Ok(SharedUniform { value, data })
    }

    /// Replaces the shared value; setting the value it already holds is a
    /// no-op, any other value invalidates every consuming program's copy.
    pub fn set_value(&mut self, value: T)
        ensures
            final(self)@ == old(self)@.spec_set_value(value),
    {
        if value.same(&self.value) {
            return;
        }

        self.value = value;

        let mut i: usize = 0;
        while i < self.data.len()
            invariant
                0 <= i <= self.data@.len(),
                self.value == value,
                self.data@.len() == old(self).data@.len(),
                forall|k: int|
                    0 <= k < self.data@.len() ==> self.data@[k] == (if k < i {
                        clear_flags(old(self).data@)[k]
                    } else {
                        old(self).data@[k]
                    }),
            decreases self.data@.len() - i,
        {
            let d = self.data[i];
            self.data[i] = UniformData { location: d.location, shader_idx: d.shader_idx, accepted: false };
            i = i + 1;
        }

        proof {
            assert(final(self)@.entries =~= clear_flags(old(self).data@));
        }
    }

    /// Uploads the value for the active program if that program's copy is
    /// out of sync; other programs' flags are untouched.  A program that is
    /// no consumer of this uniform gets nothing.
    pub fn accept(&mut self, shader: &ShaderSet, queue: &mut Vec<Command>)
        requires
            shader@.used is Some,
        ensures
            final(self)@ == old(self)@.spec_accept(shader@.used->0),
            final(queue)@ == old(queue)@ + old(self)@.accept_emits(shader@.used->0),
    {
        let used = match shader.used() {
            Some(u) => u,
            None => {
                proof {
                    assert(false);
                }
                0
            },
        };

        proof {
            lemma_find_entry(old(self)@.entries, used);
        }

        let ghost found = find_entry(old(self)@.entries, used);
        let mut i: usize = 0;

        while i < self.data.len()
            invariant
                0 <= i <= self.data@.len(),
                *self == *old(self),
                queue@ == old(queue)@,
                shader@.used == Some(used),
                found == find_entry(old(self)@.entries, used),
                forall|j: int| 0 <= j < i ==> old(self).data@[j].shader_idx != used,
            decreases self.data@.len() - i,
        {
            if self.data[i].shader_idx == used {
                proof {
                    lemma_find_entry(old(self)@.entries, used);
                    assert(found == Some(i as int));
                }

                if !self.data[i].accepted {
                    queue.push(self.value.upload(self.data[i].location));
                    let d = self.data[i];
                    self.data[i] = UniformData {
                        location: d.location,
                        shader_idx: d.shader_idx,
                        accepted: true,
                    };
                } else {
                    proof {
                        assert(old(self)@.entries.update(
                            i as int,
                            UniformData {
                                location: old(self).data@[i as int].location,
                                shader_idx: old(self).data@[i as int].shader_idx,
                                accepted: true,
                            },
                        ) =~= old(self)@.entries);
                        assert(old(queue)@ + old(self)@.accept_emits(used) =~= old(queue)@);
                    }
                }

                proof {
                    if !old(self).data@[i as int].accepted {
                        assert(final(queue)@ =~= old(queue)@ + old(self)@.accept_emits(used));
                    }
                }

                return;
            }

            i = i + 1;
        }

        proof {
            assert(found is None);
            assert(old(queue)@ + old(self)@.accept_emits(used) =~= old(queue)@);
        }
    }
}

impl<T: Accept> SharedUniform<T> {
    pub fn get(&self) -> (v: T)
        ensures
            v == self@.value,
    {
        self.value
    }
}

} // verus!
