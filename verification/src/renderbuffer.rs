use vstd::prelude::*;
use crate::vec2d::Vec2D;

verus! {

/// The depth/stencil layout of a renderbuffer.
#[derive(Clone, Copy, Debug, PartialEq, Eq, Structural)]
pub enum Format {
    Depth16,
    Depth24,
    DepthF32,
    Depth24Stencil8,
    DepthF32Stencil8,
    Stencil8,
}

/// The framebuffer attachment point a renderbuffer format implies.
#[derive(Clone, Copy, Debug, PartialEq, Eq, Structural)]
pub enum Attachment {
    Depth,
    DepthStencil,
    Stencil,
}

impl Format {
    /// The attachment point implied by the format: plain depth formats attach
    /// as depth, combined formats as depth-stencil, stencil-only as stencil.
    pub open spec fn spec_attachment(&self) -> Attachment {
        match self {
            Format::Depth16 => Attachment::Depth,
            Format::Depth24 => Attachment::Depth,
            Format::DepthF32 => Attachment::Depth,
            Format::Depth24Stencil8 => Attachment::DepthStencil,
            Format::DepthF32Stencil8 => Attachment::DepthStencil,
            Format::Stencil8 => Attachment::Stencil,
        }
    }

    #[verifier::when_used_as_spec(spec_attachment)]
    pub fn attachment(&self) -> (a: Attachment)
        ensures
            a == self.spec_attachment(),
    {
        match self {
            Format::Depth16 => Attachment::Depth,
            Format::Depth24 => Attachment::Depth,
            Format::DepthF32 => Attachment::Depth,
            Format::Depth24Stencil8 => Attachment::DepthStencil,
            Format::DepthF32Stencil8 => Attachment::DepthStencil,
            Format::Stencil8 => Attachment::Stencil,
        }
    }
}

impl Format {
    /// The sized internal format's constant in the graphics API's numbering.
    pub open spec fn spec_internal_format(&self) -> u32 {
        match self {
            Format::Depth16 => 0x81A5,
            Format::Depth24 => 0x81A6,
            Format::DepthF32 => 0x8CAC,
            Format::Depth24Stencil8 => 0x88F0,
            Format::DepthF32Stencil8 => 0x8CAD,
            Format::Stencil8 => 0x8D48,
        }
    }

    #[verifier::when_used_as_spec(spec_internal_format)]
    pub fn internal_format(&self) -> (r: u32)
        ensures
            r == self.spec_internal_format(),
    {
        match self {
            Format::Depth16 => 0x81A5,
            Format::Depth24 => 0x81A6,
            Format::DepthF32 => 0x8CAC,
            Format::Depth24Stencil8 => 0x88F0,
            Format::DepthF32Stencil8 => 0x8CAD,
            Format::Stencil8 => 0x8D48,
        }
    }

    /// The unsized base format's constant in the graphics API's numbering.
    pub open spec fn spec_base_format(&self) -> u32 {
        match self {
            Format::Depth16 => 0x1902,
            Format::Depth24 => 0x1902,
            Format::DepthF32 => 0x1902,
            Format::Depth24Stencil8 => 0x84F9,
            Format::DepthF32Stencil8 => 0x84F9,
            Format::Stencil8 => 0x1802,
        }
    }

    #[verifier::when_used_as_spec(spec_base_format)]
    pub fn base_format(&self) -> (r: u32)
        ensures
            r == self.spec_base_format(),
    {
        match self {
            Format::Depth16 => 0x1902,
            Format::Depth24 => 0x1902,
            Format::DepthF32 => 0x1902,
            Format::Depth24Stencil8 => 0x84F9,
            Format::DepthF32Stencil8 => 0x84F9,
            Format::Stencil8 => 0x1802,
        }
    }
}

impl Attachment {
    /// The attachment point's constant in the graphics API's numbering.
    pub open spec fn spec_gl_value(&self) -> u32 {
        match self {
            Attachment::Depth => 0x8D00,
            Attachment::DepthStencil => 0x821A,
            Attachment::Stencil => 0x8D20,
        }
    }

    #[verifier::when_used_as_spec(spec_gl_value)]
    pub fn gl_value(&self) -> (r: u32)
        ensures
            r == self.spec_gl_value(),
    {
        match self {
            Attachment::Depth => 0x8D00,
            Attachment::DepthStencil => 0x821A,
            Attachment::Stencil => 0x8D20,
        }
    }
}

#[derive(Clone, Copy, Debug, PartialEq, Eq)]
pub enum RenderbufferError {
    /// A renderbuffer size had a negative dimension.
    NegativeSize,
}

/// One GPU renderbuffer: the handle the command queue speaks of and the
/// format it was created with.
#[derive(Clone, Copy, Debug, PartialEq, Eq, Structural)]
pub struct Renderbuffer {
    pub id: u32,
    pub format: Format,
}

impl Renderbuffer {
    /// A renderbuffer record of the given format under the given handle;
    /// rejects negative dimensions.  The caller pairs the handle with the GPU
    /// object it creates for it.
    pub fn new(id: u32, size: Vec2D, format: Format) -> (r: Result<
        Renderbuffer,
        RenderbufferError,
    >)
        ensures
            r is Ok <==> size.x >= 0 && size.y >= 0,
            r matches Ok(rb) ==> rb == (Renderbuffer { id, format }),
            r matches Err(e) ==> e == RenderbufferError::NegativeSize,
    {
        if size.x < 0 || size.y < 0 {
            return Err(RenderbufferError::NegativeSize);
        }

        Ok(Renderbuffer { id, format })
    }

    pub fn id(&self) -> (r: u32)
        ensures
            r == self.id,
    {
        self.id
    }

    pub fn format(&self) -> (f: Format)
        ensures
            f == self.format,
    {
        self.format
    }

    pub fn attachment(&self) -> (a: Attachment)
        ensures
            a == self.format.spec_attachment(),
    {
        self.format.attachment()
    }
}

} // verus!
