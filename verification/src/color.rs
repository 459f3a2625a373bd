use vstd::prelude::*;

verus! {

/// An RGBA color with 8-bit channels.  The GPU shell maps each channel to the
/// unit interval when it uploads the value.
#[derive(Clone, Copy, Debug, PartialEq, Eq, Structural)]
pub struct Color(pub u8, pub u8, pub u8, pub u8);

impl Color {
    pub fn black() -> (c: Color)
        ensures
            c == (Color(0, 0, 0, 255)),
    {
        Color(0, 0, 0, 255)
    }

    pub fn white() -> (c: Color)
        ensures
            c == (Color(255, 255, 255, 255)),
    {
        Color(255, 255, 255, 255)
    }

    pub fn red() -> (c: Color)
        ensures
            c == (Color(255, 0, 0, 255)),
    {
        Color(255, 0, 0, 255)
    }

    pub fn green() -> (c: Color)
        ensures
            c == (Color(0, 255, 0, 255)),
    {
        Color(0, 255, 0, 255)
    }

    pub fn blue() -> (c: Color)
        ensures
            c == (Color(0, 0, 255, 255)),
    {
        Color(0, 0, 255, 255)
    }

    /// A fully opaque color from its three color channels.
    pub fn rgb(r: u8, g: u8, b: u8) -> (c: Color)
        ensures
            c == (Color(r, g, b, 255)),
    {
        Color(r, g, b, 255)
    }

    pub fn r(self) -> (r: u8)
        ensures
            r == self.0,
    {
        self.0
    }

    pub fn g(self) -> (r: u8)
        ensures
            r == self.1,
    {
        self.1
    }

    pub fn b(self) -> (r: u8)
        ensures
            r == self.2,
    {
        self.2
    }

    pub fn a(self) -> (r: u8)
        ensures
            r == self.3,
    {
        self.3
    }
}

impl Default for Color {
    /// The default color is opaque black.
    fn default() -> (c: Color)
        ensures
            c == (Color(0, 0, 0, 255)),
    {
        Color::black()
    }
}

} // verus!
