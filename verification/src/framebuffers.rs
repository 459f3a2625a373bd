use vstd::prelude::*;
use crate::command::Command;
use crate::renderbuffer::{Format as RenderbufferFormat, Renderbuffer, RenderbufferError};
use crate::texture::{Format as TextureFormat, Texture, TextureError};
use crate::vec2d::Vec2D;

verus! {

/// The status the graphics API reports for a framebuffer that is complete.
pub const GL_FRAMEBUFFER_COMPLETE: u32 = 0x8CD5;

#[derive(Clone, Copy, Debug, PartialEq, Eq)]
pub enum FramebufferError {
    RenderbufferError(RenderbufferError),
    TextureError(TextureError),
}

/// One framebuffer object: its handle, at most one depth/stencil
/// renderbuffer, and its color attachment textures, in slot order.
pub struct Framebuffer {
    pub id: u32,
    pub renderbuffer: Option<Renderbuffer>,
    pub textures: Vec<Texture>,
    pub size: Vec2D,
}

impl Framebuffer {
    pub fn textures(&self) -> (r: &Vec<Texture>)
        ensures
            r@ == self.textures@,
    {
        &self.textures
    }

    pub fn size(&self) -> (s: Vec2D)
        ensures
            s == self.size,
    {
        self.size
    }

    /// What destroying this framebuffer sends: its textures, its
    /// renderbuffer if it has one, then the framebuffer itself, each exactly
    /// once.
    pub open spec fn delete_emits(self) -> Seq<Command> {
        self.textures@.map_values(|t: Texture| Command::DeleteTexture { id: t.id })
            + (match self.renderbuffer {
            Some(rb) => seq![Command::DeleteRenderbuffer { id: rb.id }],
            None => Seq::<Command>::empty(),
        }) + seq![Command::DeleteFramebuffer { id: self.id }]
    }
}

/// What destroying each framebuffer in turn sends.
pub open spec fn delete_all_emits(fbs: Seq<Framebuffer>) -> Seq<Command>
    decreases fbs.len(),
{
    if fbs.len() == 0 {
        Seq::empty()
    } else {
        fbs[0].delete_emits() + delete_all_emits(fbs.drop_first())
    }
}

/// What `resize` sends for the bound framebuffer `fb` when every attachment
/// can be recreated: destroy the old object and its attachments, create and
/// bind a replacement of the new size under fresh handles starting at
/// `base`, then re-add a renderbuffer of the old format and textures of the
/// old formats in the original slot order.
pub open spec fn resize_emits(fb: Framebuffer, size: Vec2D, base: u32) -> Seq<Command> {
    fb.delete_emits() + seq![
        Command::CreateFramebuffer { id: base },
        Command::BindFramebuffer { id: base },
    ] + (match fb.renderbuffer {
        Some(rb) => seq![
            Command::AddRenderbuffer {
                framebuffer: base,
                id: (base + 1) as u32,
                format: rb.format,
                width: size.x,
                height: size.y,
                attachment: rb.format.spec_attachment(),
            },
        ],
        None => Seq::<Command>::empty(),
    }) + Seq::new(
        fb.textures@.len(),
        |i: int| Command::AddTexture {
            framebuffer: base,
            id: (base + 1 + (if fb.renderbuffer is Some { 1int } else { 0int }) + i) as u32,
            format: fb.textures@[i].format,
            width: size.x,
            height: size.y,
            slot: i as u32,
        },
    )
}

proof fn lemma_delete_all_snoc(fbs: Seq<Framebuffer>, fb: Framebuffer)
    ensures
        delete_all_emits(fbs.push(fb)) == delete_all_emits(fbs) + fb.delete_emits(),
    decreases fbs.len(),
{
    if fbs.len() == 0 {
        assert(fbs.push(fb)[0] == fb);
        assert(fbs.push(fb).drop_first() =~= Seq::<Framebuffer>::empty());
        assert(delete_all_emits(fbs.push(fb).drop_first()) == Seq::<Command>::empty());
        assert(delete_all_emits(fbs.push(fb)) =~= delete_all_emits(fbs) + fb.delete_emits());
    } else {
        assert(fbs.push(fb)[0] == fbs[0]);
        assert(fbs.push(fb).drop_first() =~= fbs.drop_first().push(fb));
        lemma_delete_all_snoc(fbs.drop_first(), fb);
        assert(delete_all_emits(fbs.push(fb)) =~= delete_all_emits(fbs) + fb.delete_emits());
    }
}

/// An ordered collection of framebuffers and the index of the bound one;
/// no index means the default, on-screen target is bound.  Handles for the
/// GPU objects the set creates are drawn from its own counter, so every
/// handle is used for one object only.
pub struct FramebufferSet {
    pub framebuffers: Vec<Framebuffer>,
    pub bound: Option<usize>,
    pub next_id: u32,
}

impl FramebufferSet {
    /// The bound index, if present, names a framebuffer of the set, and the
    /// handle counter is ahead of every handle handed out.
    pub open spec fn wf(self) -> bool {
        &&& self.bound matches Some(i) ==> i < self.framebuffers@.len()
        &&& self.next_id >= 1
    }

    /// What `bind(idx)` sends: one bind when `idx` differs from the bound
    /// index, nothing when it is already bound.
    pub open spec fn bind_emits(self, idx: usize) -> Seq<Command> {
        if self.bound == Some(idx) {
            Seq::empty()
        } else {
            seq![Command::BindFramebuffer { id: self.framebuffers@[idx as int].id }]
        }
    }

    /// `add_renderbuffer`'s usage condition: a framebuffer holds at most one
    /// renderbuffer, by design, so one may only be added while a framebuffer
    /// is bound and holds none.  A caller that asks for a second renderbuffer
    /// without an intervening resize commits a usage error, not a recoverable
    /// failure.
    pub open spec fn may_add_renderbuffer(self) -> bool {
        &&& self.bound is Some
        &&& self.framebuffers@[self.bound->0 as int].renderbuffer is None
    }

    /// What `bind_default()` sends: the switch to the default target, unless
    /// it is already bound.
    pub open spec fn bind_default_emits(self) -> Seq<Command> {
        if self.bound is Some {
            seq![Command::BindFramebuffer { id: 0u32 }]
        } else {
            Seq::empty()
        }
    }

    pub fn new() -> (s: FramebufferSet)
        ensures
            s.framebuffers@.len() == 0,
            s.bound is None,
            s.next_id == 1,
            s.wf(),
    {
        FramebufferSet { framebuffers: Vec::new(), bound: None, next_id: 1 }
    }

    pub fn len(&self) -> (n: usize)
        ensures
            n == self.framebuffers@.len(),
    {
        self.framebuffers.len()
    }

    pub fn bound(&self) -> (r: Option<usize>)
        ensures
            r == self.bound,
    {
        self.bound
    }

    /// The bound framebuffer.  Asking with the default target bound is a
    /// caller error.
    pub fn active(&self) -> (r: &Framebuffer)
        requires
            self.wf(),
            self.bound is Some,
        ensures
            *r == self.framebuffers@[self.bound->0 as int],
    {
        match self.bound {
            Some(idx) => &self.framebuffers[idx],
            None => {
                proof {
                    assert(false);
                }
                &self.framebuffers[0]
            },
        }
    }

    /// Creates a framebuffer of the given size, with no attachments yet, and
    /// binds it.
    pub fn add_framebuffer(&mut self, size: Vec2D, queue: &mut Vec<Command>)
        requires
            old(self).wf(),
            old(self).next_id < u32::MAX,
            old(self).framebuffers@.len() < usize::MAX,
        ensures
            final(self).wf(),
            final(self).framebuffers@.len() == old(self).framebuffers@.len() + 1,
            forall|j: int|
                0 <= j < old(self).framebuffers@.len() ==> final(self).framebuffers@[j] == old(
                    self,
                ).framebuffers@[j],
            final(self).framebuffers@.last().id == old(self).next_id,
            final(self).framebuffers@.last().renderbuffer is None,
            final(self).framebuffers@.last().textures@.len() == 0,
            final(self).framebuffers@.last().size == size,
            final(self).bound == Some((old(self).framebuffers@.len() as usize)),
            final(self).next_id == old(self).next_id + 1,
            final(queue)@ == old(queue)@ + seq![
                Command::CreateFramebuffer { id: old(self).next_id },
                Command::BindFramebuffer { id: old(self).next_id },
            ],
    {
        let id = self.next_id;
        self.next_id = self.next_id + 1;
        self.framebuffers.push(Framebuffer { id, renderbuffer: None, textures: Vec::new(), size });
        queue.push(Command::CreateFramebuffer { id });

        let idx = self.framebuffers.len() - 1;
        self.bind(idx, queue);

        proof {
            assert(queue@ =~= old(queue)@ + seq![
                Command::CreateFramebuffer { id },
                Command::BindFramebuffer { id },
            ]);
        }
    }

    /// Makes the framebuffer at `idx` the render target.  The bind is sent
    /// only when `idx` differs from the bound index.
    pub fn bind(&mut self, idx: usize, queue: &mut Vec<Command>)
        requires
            idx < old(self).framebuffers@.len(),
        ensures
            final(self).framebuffers@ == old(self).framebuffers@,
            final(self).next_id == old(self).next_id,
            final(self).bound == Some(idx),
            final(queue)@ == old(queue)@ + old(self).bind_emits(idx),
    {
        match self.bound {
            Some(i) if i == idx => {
                proof {
                    assert(old(queue)@ + old(self).bind_emits(idx) =~= old(queue)@);
                }
            },
            _ => {
                queue.push(Command::BindFramebuffer { id: self.framebuffers[idx].id });
                self.bound = Some(idx);
            },
        }
    }

    /// Goes back to the default, on-screen target.
    pub fn bind_default(&mut self, queue: &mut Vec<Command>)
        ensures
            final(self).framebuffers@ == old(self).framebuffers@,
            final(self).next_id == old(self).next_id,
            final(self).bound is None,
            final(queue)@ == old(queue)@ + old(self).bind_default_emits(),
    {
        if self.bound.is_some() {
            queue.push(Command::BindFramebuffer { id: 0 });
            self.bound = None;
        } else {
            proof {
                assert(old(queue)@ + old(self).bind_default_emits() =~= old(queue)@);
            }
        }
    }

    /// Creates a renderbuffer of the given format, sized to the bound
    /// framebuffer, and attaches it at the attachment point the format
    /// implies.  A framebuffer holds at most one renderbuffer, by design:
    /// asking for a second is a caller error.  Fails if the framebuffer size
    /// has a negative dimension.
    pub fn add_renderbuffer(&mut self, format: RenderbufferFormat, queue: &mut Vec<Command>) -> (r:
        Result<(), FramebufferError>)
        requires
            old(self).wf(),
            old(self).may_add_renderbuffer(),
            old(self).next_id < u32::MAX,
        ensures
            final(self).wf(),
            final(self).bound == old(self).bound,
            final(self).framebuffers@.len() == old(self).framebuffers@.len(),
            ({
                let b = old(self).bound->0 as int;
                let fb = old(self).framebuffers@[b];
                &&& r is Ok <==> fb.size.x >= 0 && fb.size.y >= 0
                &&& r is Ok ==> {
                    &&& final(self).next_id == old(self).next_id + 1
                    &&& final(self).framebuffers@[b].id == fb.id
                    &&& final(self).framebuffers@[b].size == fb.size
                    &&& final(self).framebuffers@[b].textures@ == fb.textures@
                    &&& final(self).framebuffers@[b].renderbuffer == Some(
                        Renderbuffer { id: old(self).next_id, format },
                    )
                    &&& final(queue)@ == old(queue)@.push(
                        Command::AddRenderbuffer {
                            framebuffer: fb.id,
                            id: old(self).next_id,
                            format,
                            width: fb.size.x,
                            height: fb.size.y,
                            attachment: format.spec_attachment(),
                        },
                    )
                }
                &&& r matches Err(e) ==> {
                    &&& e == FramebufferError::RenderbufferError(RenderbufferError::NegativeSize)
                    &&& *final(self) == *old(self)
                    &&& final(queue)@ == old(queue)@
                }
                &&& forall|j: int|
                    0 <= j < old(self).framebuffers@.len() && j != b ==> final(self).framebuffers@[j] == old(self).framebuffers@[j]
            }),
    {
        let b = match self.bound {
            Some(i) => i,
            None => {
                proof {
                    assert(false);
                }
                0
            },
        };

        let size = self.framebuffers[b].size;
        let fb_id = self.framebuffers[b].id;

        let rb = match Renderbuffer::new(self.next_id, size, format) {
            Ok(rb) => rb,
            Err(e) => {
                return Err(FramebufferError::RenderbufferError(e));
            },
        };

        self.next_id = self.next_id + 1;
        queue.push(
            Command::AddRenderbuffer {
                framebuffer: fb_id,
                id: rb.id,
                format,
                width: size.x,
                height: size.y,
                attachment: format.attachment(),
            },
        );

        let fb = vstd::std_specs::vec::vec_index_mut(&mut self.framebuffers, b);
        fb.renderbuffer = Some(rb);

        Ok(())
    }

    /// Creates a texture of the given color format, sized to the bound
    /// framebuffer, and attaches it at the next free color attachment slot.
    /// Fails if the framebuffer size has a negative dimension.
    pub fn add_texture(&mut self, format: TextureFormat, queue: &mut Vec<Command>) -> (r: Result<
        (),
        FramebufferError,
    >)
        requires
            old(self).wf(),
            old(self).bound is Some,
            old(self).framebuffers@[old(self).bound->0 as int].textures@.len() < u32::MAX,
            old(self).next_id < u32::MAX,
        ensures
            final(self).wf(),
            final(self).bound == old(self).bound,
            final(self).framebuffers@.len() == old(self).framebuffers@.len(),
            ({
                let b = old(self).bound->0 as int;
                let fb = old(self).framebuffers@[b];
                &&& r is Ok <==> fb.size.x >= 0 && fb.size.y >= 0
                &&& r is Ok ==> {
                    &&& final(self).next_id == old(self).next_id + 1
                    &&& final(self).framebuffers@[b].id == fb.id
                    &&& final(self).framebuffers@[b].size == fb.size
                    &&& final(self).framebuffers@[b].renderbuffer == fb.renderbuffer
                    &&& final(self).framebuffers@[b].textures@ == fb.textures@.push(
                        Texture {
                            id: old(self).next_id,
                            width: fb.size.x,
                            height: fb.size.y,
                            format,
                        },
                    )
                    &&& final(queue)@ == old(queue)@.push(
                        Command::AddTexture {
                            framebuffer: fb.id,
                            id: old(self).next_id,
                            format,
                            width: fb.size.x,
                            height: fb.size.y,
                            slot: fb.textures@.len() as u32,
                        },
                    )
                }
                &&& r matches Err(e) ==> {
                    &&& e == FramebufferError::TextureError(TextureError::NegativeSize)
                    &&& *final(self) == *old(self)
                    &&& final(queue)@ == old(queue)@
                }
                &&& forall|j: int|
                    0 <= j < old(self).framebuffers@.len() && j != b ==> final(self).framebuffers@[j] == old(self).framebuffers@[j]
            }),
    {
        let b = match self.bound {
            Some(i) => i,
            None => {
                proof {
                    assert(false);
                }
                0
            },
        };

        let size = self.framebuffers[b].size;
        let fb_id = self.framebuffers[b].id;
        let slot = self.framebuffers[b].textures.len() as u32;

        let texture = match Texture::from_size_and_format(self.next_id, size, format) {
            Ok(t) => t,
            Err(_) => {
                return Err(FramebufferError::TextureError(TextureError::NegativeSize));
            },
        };

        self.next_id = self.next_id + 1;
        queue.push(
            Command::AddTexture {
                framebuffer: fb_id,
                id: texture.id,
                format,
                width: size.x,
                height: size.y,
                slot,
            },
        );

        let fb = vstd::std_specs::vec::vec_index_mut(&mut self.framebuffers, b);
        fb.textures.push(texture);

        Ok(())
    }

    /// The bound framebuffer, mutably.  Asking with the default target bound
    /// is a caller error.
    pub fn active_mut(&mut self) -> (r: &mut Framebuffer)
        requires
            old(self).wf(),
            old(self).bound is Some,
        ensures
            *r == old(self).framebuffers@[old(self).bound->0 as int],
            final(self).framebuffers@ == old(self).framebuffers@.update(
                old(self).bound->0 as int,
                *final(r),
            ),
            final(self).bound == old(self).bound,
            final(self).next_id == old(self).next_id,
    {
        let b = match self.bound {
            Some(i) => i,
            None => {
                proof {
                    assert(false);
                }
                0
            },
        };

        vstd::std_specs::vec::vec_index_mut(&mut self.framebuffers, b)
    }

    /// Rebuilds the bound framebuffer at a new size.  Only the *formats* of
    /// the attachments survive: the old framebuffer, its renderbuffer and its
    /// textures are destroyed, and same-format replacements of the new size
    /// are created and attached in the original order under fresh handles.
    /// The pixel contents are lost; a resize is a reallocation, not a copy.
    pub fn resize(&mut self, size: Vec2D, queue: &mut Vec<Command>) -> (r: Result<
        (),
        FramebufferError,
    >)
        requires
            old(self).wf(),
            old(self).bound is Some,
            old(self).next_id + 2 + old(self).framebuffers@[old(self).bound->0 as int].textures@.len()
                <= u32::MAX,
        ensures
            final(self).wf(),
            final(self).bound == old(self).bound,
            final(self).framebuffers@.len() == old(self).framebuffers@.len(),
            forall|j: int|
                0 <= j < old(self).framebuffers@.len() && j != old(self).bound->0 as int
                    ==> final(self).framebuffers@[j] == old(self).framebuffers@[j],
            ({
                let b = old(self).bound->0 as int;
                let fb = old(self).framebuffers@[b];
                let base = old(self).next_id;
                let has_rb: int = if fb.renderbuffer is Some { 1int } else { 0int };
                let nfb = final(self).framebuffers@[b];
                &&& r is Ok <==> (size.x >= 0 && size.y >= 0) || (fb.renderbuffer is None
                    && fb.textures@.len() == 0)
                &&& r is Ok ==> {
                    &&& nfb.id == base
                    &&& nfb.size == size
                    &&& (fb.renderbuffer matches Some(rb) ==> nfb.renderbuffer == Some(
                        Renderbuffer { id: (base + 1) as u32, format: rb.format },
                    ))
                    &&& (fb.renderbuffer is None ==> nfb.renderbuffer is None)
                    &&& nfb.textures@.len() == fb.textures@.len()
                    &&& forall|k: int|
                        0 <= k < fb.textures@.len() ==> nfb.textures@[k] == (Texture {
                            id: (base + 1 + has_rb + k) as u32,
                            width: size.x,
                            height: size.y,
                            format: fb.textures@[k].format,
                        })
                    &&& final(self).next_id == base + 1 + has_rb + fb.textures@.len()
                    &&& final(queue)@ == old(queue)@ + resize_emits(fb, size, base)
                }
                &&& r matches Err(e) ==> {
                    &&& size.x < 0 || size.y < 0
                    &&& fb.renderbuffer is Some || fb.textures@.len() > 0
                    &&& (fb.renderbuffer is Some ==> e == FramebufferError::RenderbufferError(
                        RenderbufferError::NegativeSize,
                    ))
                    &&& (fb.renderbuffer is None ==> e == FramebufferError::TextureError(
                        TextureError::NegativeSize,
                    ))
                    &&& nfb.id == base
                    &&& nfb.size == size
                    &&& nfb.renderbuffer is None
                    &&& nfb.textures@.len() == 0
                    &&& final(self).next_id == base + 1
                    &&& final(queue)@ == old(queue)@ + fb.delete_emits() + seq![
                        Command::CreateFramebuffer { id: base },
                        Command::BindFramebuffer { id: base },
                    ]
                }
            }),
    {
        let b = match self.bound {
            Some(i) => i,
            None => {
                proof {
                    assert(false);
                }
                0
            },
        };

        let ghost fb = self.framebuffers@[b as int];
        let ghost base = self.next_id;
        let ghost has_rb: int = if fb.renderbuffer is Some { 1int } else { 0int };

        // Only the formats of the old attachments are kept.
        let rb_format: Option<RenderbufferFormat> = match &self.framebuffers[b].renderbuffer {
            Some(rb) => Some(rb.format),
            None => None,
        };

        let mut formats: Vec<TextureFormat> = Vec::new();
        let mut j: usize = 0;

        while j < self.framebuffers[b].textures.len()
            invariant
                0 <= j <= fb.textures@.len(),
                b < self.framebuffers@.len(),
                *self == *old(self),
                self.framebuffers@[b as int] == fb,
                formats@.len() == j,
                forall|k: int| 0 <= k < j ==> formats@[k] == fb.textures@[k].format,
            decreases fb.textures@.len() - j,
        {
            formats.push(self.framebuffers[b].textures[j].format);
            j = j + 1;
        }

        // Destroy the old framebuffer and everything attached to it.
        let mut t: usize = 0;

        while t < self.framebuffers[b].textures.len()
            invariant
                0 <= t <= fb.textures@.len(),
                b < self.framebuffers@.len(),
                *self == *old(self),
                self.framebuffers@[b as int] == fb,
                queue@ == old(queue)@ + fb.textures@.take(t as int).map_values(
                    |tx: Texture| Command::DeleteTexture { id: tx.id },
                ),
            decreases fb.textures@.len() - t,
        {
            proof {
                assert(fb.textures@.take(t as int + 1).map_values(
                    |tx: Texture| Command::DeleteTexture { id: tx.id },
                ) =~= fb.textures@.take(t as int).map_values(
                    |tx: Texture| Command::DeleteTexture { id: tx.id },
                ).push(Command::DeleteTexture { id: fb.textures@[t as int].id }));
            }

            queue.push(Command::DeleteTexture { id: self.framebuffers[b].textures[t].id });
            t = t + 1;
        }

        proof {
            assert(fb.textures@.take(fb.textures@.len() as int) =~= fb.textures@);
        }

        match &self.framebuffers[b].renderbuffer {
            Some(rb) => {
                queue.push(Command::DeleteRenderbuffer { id: rb.id });
            },
            None => {
            },
        }

        queue.push(Command::DeleteFramebuffer { id: self.framebuffers[b].id });

        proof {
            assert(queue@ =~= old(queue)@ + fb.delete_emits());
        }

        // Create the same-shaped replacement under fresh handles.
        let new_id = self.next_id;
        self.next_id = self.next_id + 1;

        let slot = vstd::std_specs::vec::vec_index_mut(&mut self.framebuffers, b);
        *slot = Framebuffer { id: new_id, renderbuffer: None, textures: Vec::new(), size };

        queue.push(Command::CreateFramebuffer { id: new_id });
        queue.push(Command::BindFramebuffer { id: new_id });

        let ghost pre_adds = queue@;

        if let Some(format) = rb_format {
            match self.add_renderbuffer(format, queue) {
                Ok(()) => {},
                Err(e) => {
                    return Err(e);
                },
            }
        }

        let ghost pre_textures = queue@;
        let mut k: usize = 0;

        while k < formats.len()
            invariant
                0 <= k <= formats@.len(),
                formats@.len() == fb.textures@.len(),
                forall|i: int| 0 <= i < formats@.len() ==> formats@[i] == fb.textures@[i].format,
                k > 0 ==> size.x >= 0 && size.y >= 0,
                fb.renderbuffer is Some ==> size.x >= 0 && size.y >= 0,
                has_rb == (if fb.renderbuffer is Some { 1int } else { 0int }),
                fb == old(self).framebuffers@[b as int],
                base == old(self).next_id,
                old(self).bound == Some(b),
                self.wf(),
                self.bound == Some(b),
                b < self.framebuffers@.len(),
                self.framebuffers@.len() == old(self).framebuffers@.len(),
                forall|jj: int|
                    0 <= jj < old(self).framebuffers@.len() && jj != b ==> self.framebuffers@[jj]
                        == old(self).framebuffers@[jj],
                self.framebuffers@[b as int].id == base,
                self.framebuffers@[b as int].size == size,
                (fb.renderbuffer matches Some(rb) ==> self.framebuffers@[b as int].renderbuffer
                    == Some(Renderbuffer { id: (base + 1) as u32, format: rb.format })),
                (fb.renderbuffer is None ==> self.framebuffers@[b as int].renderbuffer is None),
                self.framebuffers@[b as int].textures@.len() == k,
                forall|i: int|
                    0 <= i < k ==> self.framebuffers@[b as int].textures@[i] == (Texture {
                        id: (base + 1 + has_rb + i) as u32,
                        width: size.x,
                        height: size.y,
                        format: fb.textures@[i].format,
                    }),
                self.next_id == base + 1 + has_rb + k,
                base + 2 + fb.textures@.len() <= u32::MAX,
                queue@ == pre_textures + Seq::new(
                    k as nat,
                    |i: int| Command::AddTexture {
                        framebuffer: base,
                        id: (base + 1 + has_rb + i) as u32,
                        format: fb.textures@[i].format,
                        width: size.x,
                        height: size.y,
                        slot: i as u32,
                    },
                ),
                pre_textures == pre_adds + (match fb.renderbuffer {
                    Some(rb) => seq![
                        Command::AddRenderbuffer {
                            framebuffer: base,
                            id: (base + 1) as u32,
                            format: rb.format,
                            width: size.x,
                            height: size.y,
                            attachment: rb.format.spec_attachment(),
                        },
                    ],
                    None => Seq::<Command>::empty(),
                }),
                pre_adds == old(queue)@ + fb.delete_emits() + seq![
                    Command::CreateFramebuffer { id: base },
                    Command::BindFramebuffer { id: base },
                ],
            decreases formats@.len() - k,
        {
            let format = formats[k];

            match self.add_texture(format, queue) {
                Ok(()) => {},
                Err(e) => {
                    proof {
                        assert(k == 0);
                        assert(fb.renderbuffer is None);
                        assert(queue@ =~= old(queue)@ + fb.delete_emits() + seq![
                            Command::CreateFramebuffer { id: base },
                            Command::BindFramebuffer { id: base },
                        ]);
                    }

                    return Err(e);
                },
            }

            proof {
                assert(queue@ =~= pre_textures + Seq::new(
                    k as nat + 1,
                    |i: int| Command::AddTexture {
                        framebuffer: base,
                        id: (base + 1 + has_rb + i) as u32,
                        format: fb.textures@[i].format,
                        width: size.x,
                        height: size.y,
                        slot: i as u32,
                    },
                ));
            }

            k = k + 1;
        }

        proof {
            if fb.renderbuffer is None && fb.textures@.len() == 0 {
                assert(queue@ =~= old(queue)@ + resize_emits(fb, size, base));
            } else {
                assert(size.x >= 0 && size.y >= 0);
                assert(queue@ =~= old(queue)@ + resize_emits(fb, size, base));
            }
        }

        Ok(())
    }

    /// Types the completeness status the caller read back from the GPU for
    /// the bound framebuffer.  Asking with the default target bound is a
    /// caller error.
    pub fn is_completed(&self, status: u32) -> (r: bool)
        requires
            self.bound is Some,
        ensures
            r == (status == GL_FRAMEBUFFER_COMPLETE),
    {
        status == GL_FRAMEBUFFER_COMPLETE
    }

    /// Destroys the whole set: goes back to the default target, then deletes
    /// every framebuffer and its attachments exactly once.  Consuming the
    /// set is what makes a second deletion impossible.
    pub fn delete(self, queue: &mut Vec<Command>)
        ensures
            final(queue)@ == old(queue)@ + self.bind_default_emits() + delete_all_emits(
                self.framebuffers@,
            ),
    {
        let ghost fbs = self.framebuffers@;
        let ghost default_emits = self.bind_default_emits();
        let FramebufferSet { framebuffers, bound, next_id } = self;
        let mut rest = FramebufferSet { framebuffers, bound, next_id };

        rest.bind_default(queue);

        let mut i: usize = 0;

        while i < rest.framebuffers.len()
            invariant
                0 <= i <= rest.framebuffers@.len(),
                rest.framebuffers@ == fbs,
                queue@ == old(queue)@ + default_emits + delete_all_emits(fbs.take(i as int)),
            decreases rest.framebuffers@.len() - i,
        {
            proof {
                assert(fbs.take(i as int + 1) =~= fbs.take(i as int).push(fbs[i as int]));
                lemma_delete_all_snoc(fbs.take(i as int), fbs[i as int]);
            }

            let ghost pre = queue@;
            let fb = &rest.framebuffers[i];
            let mut j: usize = 0;

            while j < fb.textures.len()
                invariant
                    0 <= j <= fb.textures@.len(),
                    *fb == fbs[i as int],
                    i < fbs.len(),
                    queue@ == pre + fbs[i as int].textures@.take(j as int).map_values(
                        |t: Texture| Command::DeleteTexture { id: t.id },
                    ),
                decreases fb.textures@.len() - j,
            {
                proof {
                    assert(fbs[i as int].textures@.take(j as int + 1).map_values(
                        |t: Texture| Command::DeleteTexture { id: t.id },
                    ) =~= fbs[i as int].textures@.take(j as int).map_values(
                        |t: Texture| Command::DeleteTexture { id: t.id },
                    ).push(Command::DeleteTexture { id: fbs[i as int].textures@[j as int].id }));
                }

                queue.push(Command::DeleteTexture { id: fb.textures[j].id });
                j = j + 1;
            }

            proof {
                assert(fbs[i as int].textures@.take(fbs[i as int].textures@.len() as int) =~= fbs[
                    i as int
                ].textures@);
            }

            match &fb.renderbuffer {
                Some(rb) => {
                    queue.push(Command::DeleteRenderbuffer { id: rb.id() });
                },
                None => {
                },
            }

            queue.push(Command::DeleteFramebuffer { id: fb.id });

            proof {
                assert(queue@ =~= old(queue)@ + default_emits + delete_all_emits(fbs.take(
                    i as int + 1,
                )));
            }

            i = i + 1;
        }

        proof {
            assert(fbs.take(fbs.len() as int) =~= fbs);
        }
    }
}

} // verus!
