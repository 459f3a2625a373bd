use vstd::prelude::*;
use crate::color::Color;

verus! {

/// The background of the whole scene.
pub struct Root {
    pub bg: Color,
}

impl Root {
    pub fn new(bg: Color) -> (r: Root)
        ensures
            r.bg == bg,
    {
        Root { bg }
    }
}

} // verus!
