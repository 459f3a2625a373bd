use vstd::prelude::*;
use crate::command::Command;
use crate::vec2d::Vec2D;

verus! {

/// What announcing `size` to the GPU sends: the viewport call, unless a
/// dimension is negative, which is never forwarded.
pub open spec fn viewport_emits(size: Vec2D) -> Seq<Command> {
    if size.x >= 0 && size.y >= 0 {
        seq![Command::SetViewport { width: size.x, height: size.y }]
    } else {
        Seq::<Command>::empty()
    }
}

/// The pixel size mirrored to the GPU viewport state.  Resizing to the size
/// already held is a no-op.
pub struct Viewport {
    pub size: Vec2D,
}

impl Viewport {
    pub fn new(size: Vec2D, queue: &mut Vec<Command>) -> (v: Viewport)
        ensures
            v.size == size,
            final(queue)@ == old(queue)@ + viewport_emits(size),
    {
        let viewport = Viewport { size };
        viewport.resize_viewport(queue);
        viewport
    }

    pub fn size(&self) -> (s: Vec2D)
        ensures
            s == self.size,
    {
        self.size
    }

    /// Mirrors a new size to the GPU.  The call is sent only when the size
    /// changed, and never with a negative dimension.
    pub fn resize(&mut self, size: Vec2D, queue: &mut Vec<Command>)
        ensures
            final(self).size == size,
            final(queue)@ == old(queue)@ + (if size == old(self).size {
                Seq::<Command>::empty()
            } else {
                viewport_emits(size)
            }),
    {
        if size == self.size {
            proof {
                assert(old(queue)@ + Seq::<Command>::empty() =~= old(queue)@);
            }
            return;
        }

        self.size = size;
        self.resize_viewport(queue);
    }

    fn resize_viewport(&self, queue: &mut Vec<Command>)
        ensures
            final(queue)@ == old(queue)@ + viewport_emits(self.size),
    {
        if self.size.x < 0 || self.size.y < 0 {
            proof {
                assert(old(queue)@ + viewport_emits(self.size) =~= old(queue)@);
            }
            return;
        }

        queue.push(Command::SetViewport { width: self.size.x, height: self.size.y });
    }
}

} // verus!
