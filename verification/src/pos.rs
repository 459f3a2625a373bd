use vstd::prelude::*;
use crate::size::Size;

verus! {

/// A position on the screen.
#[derive(Clone, Copy, Debug, PartialEq, Eq, Structural)]
pub struct Pos(pub i32, pub i32);

impl Pos {
    /// Reinterprets the position as a size; components must not be negative.
    pub fn as_size(&self) -> (s: Size)
        requires
            self.0 >= 0,
            self.1 >= 0,
        ensures
            s == (Size(self.0 as u32, self.1 as u32)),
    {
        Size(self.0 as u32, self.1 as u32)
    }
}

} // verus!
