use vstd::prelude::*;
use crate::color::Color;
use crate::rect::Rect;
use crate::renderbuffer;
use crate::texture;

verus! {

/// An orthographic projection with x ranging over `0..=width` and y over
/// `0..=height` (near plane 0, far plane 10).  The GPU shell expands it to
/// the actual 4x4 matrix; the core only ever decides the two bounds.
#[derive(Clone, Copy, Debug, PartialEq, Eq, Structural)]
pub struct Ortho {
    pub width: i32,
    pub height: i32,
}

/// A texture sub-rectangle in texel coordinates together with the texture
/// size; the GPU shell divides by the size to get normalized coordinates.
#[derive(Clone, Copy, Debug, PartialEq, Eq, Structural)]
pub struct TexRect {
    pub rect: Rect,
    pub tex_width: i32,
    pub tex_height: i32,
}

/// A typed uniform value as it is handed to the GPU shell.
#[derive(Clone, Copy, Debug, PartialEq, Eq, Structural)]
pub enum UniformValue {
    Bool(bool),
    Int(i32),
    UInt(u32),
    Rgba(Color),
    Ortho(Ortho),
}

/// One GPU call the core has decided on.  Handles for programs are the ones
/// the caller registered; handles for framebuffers, textures and
/// renderbuffers created by the core are drawn from the framebuffer set's
/// own counter, and the GPU shell keeps the mapping to native object names.
/// A handle of 0 stands for "none": no program, the default framebuffer.
#[derive(Clone, Copy, Debug, PartialEq, Eq)]
#[allow(inconsistent_fields)]
pub enum Command {
    /// Make the program with this handle current (0 unbinds).
    BindProgram { id: u32 },
    /// Destroy the program with this handle.
    DeleteProgram { id: u32 },
    /// Upload a uniform value to this location of the current program.
    Upload { location: i32, value: UniformValue },
    /// Create a framebuffer object under this handle.
    CreateFramebuffer { id: u32 },
    /// Make the framebuffer with this handle the render target (0 means the
    /// default, on-screen target).
    BindFramebuffer { id: u32 },
    /// Destroy the framebuffer with this handle.
    DeleteFramebuffer { id: u32 },
    /// Create a renderbuffer of this format and size and attach it to the
    /// bound framebuffer at the given attachment point.
    AddRenderbuffer {
        framebuffer: u32,
        id: u32,
        format: renderbuffer::Format,
        width: i32,
        height: i32,
        attachment: renderbuffer::Attachment,
    },
    /// Destroy the renderbuffer with this handle.
    DeleteRenderbuffer { id: u32 },
    /// Create a texture of this format and size and attach it to the bound
    /// framebuffer at the given color attachment slot.
    AddTexture {
        framebuffer: u32,
        id: u32,
        format: texture::Format,
        width: i32,
        height: i32,
        slot: u32,
    },
    /// Destroy the texture with this handle.
    DeleteTexture { id: u32 },
    /// Bind the texture with this handle to the given texture unit.
    BindTexture { unit: u32, id: u32 },
    /// Resize the GPU viewport.
    SetViewport { width: i32, height: i32 },
    /// Clear the current render target with this color.
    Clear { color: Color },
    /// Draw one textured quad over this device rectangle.  `st` selects the
    /// sampled sub-rectangle (the whole texture when absent); `flip_v`
    /// mirrors the sampled rectangle vertically.
    DrawQuad { rect: Rect, st: Option<TexRect>, flip_v: bool },
}

} // verus!
