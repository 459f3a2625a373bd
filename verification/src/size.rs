use vstd::prelude::*;
use crate::pos::Pos;

verus! {

/// A size on the screen.
#[derive(Clone, Copy, Debug, PartialEq, Eq, Structural)]
pub struct Size(pub u32, pub u32);

impl Size {
    /// Reinterprets the size as a position; components must fit a signed word.
    pub fn as_pos(&self) -> (p: Pos)
        requires
            self.0 <= i32::MAX,
            self.1 <= i32::MAX,
        ensures
            p == (Pos(self.0 as i32, self.1 as i32)),
    {
        Pos(self.0 as i32, self.1 as i32)
    }

    pub fn half(self) -> (s: Size)
        ensures
            s.0 == self.0 / 2,
            s.1 == self.1 / 2,
    {
        Size(self.0 / 2, self.1 / 2)
    }
}

} // verus!
