use vstd::prelude::*;
use crate::command::Command;
use crate::vec2d::Vec2D;

verus! {

/// The color layout of a texture.
#[derive(Clone, Copy, Debug, PartialEq, Eq, Structural)]
pub enum Format {
    R,
    RG,
    RGB,
    RGBA,
}

impl Format {
    /// How many bytes one texel occupies.
    pub open spec fn spec_color_size_in_bytes(&self) -> usize {
        match self {
            Format::R => 1,
            Format::RG => 2,
            Format::RGB => 3,
            Format::RGBA => 4,
        }
    }

    #[verifier::when_used_as_spec(spec_color_size_in_bytes)]
    pub fn color_size_in_bytes(&self) -> (n: usize)
        ensures
            n == self.spec_color_size_in_bytes(),
    {
        match self {
            Format::R => 1,
            Format::RG => 2,
            Format::RGB => 3,
            Format::RGBA => 4,
        }
    }
}

impl Format {
    /// The format's constant in the graphics API's numbering.
    pub open spec fn spec_gl_format(&self) -> u32 {
        match self {
            Format::R => 0x1903,
            Format::RG => 0x8227,
            Format::RGB => 0x1907,
            Format::RGBA => 0x1908,
        }
    }

    #[verifier::when_used_as_spec(spec_gl_format)]
    pub fn gl_format(&self) -> (r: u32)
        ensures
            r == self.spec_gl_format(),
    {
        match self {
            Format::R => 0x1903,
            Format::RG => 0x8227,
            Format::RGB => 0x1907,
            Format::RGBA => 0x1908,
        }
    }
}

#[derive(Clone, Copy, Debug, PartialEq, Eq)]
pub enum TextureError {
    /// A texture size had a negative dimension.
    NegativeSize,
    /// Raw texel data did not match the announced size and format.
    WrongRawSize,
    /// An image used a color layout the renderer does not handle.
    UnsupportedFormat,
}

/// One GPU texture: the handle the command queue speaks of, together with the
/// size and format it was created with.
#[derive(Clone, Copy, Debug, PartialEq, Eq, Structural)]
pub struct Texture {
    pub id: u32,
    pub width: i32,
    pub height: i32,
    pub format: Format,
}

impl Texture {
    /// A texture record of the given size and format under the given handle;
    /// rejects negative dimensions.  The caller pairs the handle with the GPU
    /// object it creates for it.
    pub fn from_size_and_format(id: u32, size: Vec2D, format: Format) -> (r: Result<
        Texture,
        TextureError,
    >)
        ensures
            r is Ok <==> size.x >= 0 && size.y >= 0,
            r matches Ok(t) ==> t == (Texture { id, width: size.x, height: size.y, format }),
            r matches Err(e) ==> e == TextureError::NegativeSize,
    {
        match Texture::from_raw(id, None, size, format) {
            Ok(t) => Ok(t),
            Err(_) => Err(TextureError::NegativeSize),
        }
    }

    /// Like [`Texture::from_size_and_format`], for a texture the caller
    /// fills with raw texels: the data must hold exactly one texel for every
    /// pixel of the announced size.
    pub fn from_raw(id: u32, raw: Option<&Vec<u8>>, size: Vec2D, format: Format) -> (r: Result<
        Texture,
        TextureError,
    >)
        ensures
            r is Ok <==> size.x >= 0 && size.y >= 0 && (raw matches Some(data) ==> data@.len()
                == size.x * size.y * format.spec_color_size_in_bytes()),
            r matches Ok(t) ==> t == (Texture { id, width: size.x, height: size.y, format }),
            r matches Err(e) ==> e == (if size.x < 0 || size.y < 0 {
                TextureError::NegativeSize
            } else {
                TextureError::WrongRawSize
            }),
    {
        if size.x < 0 || size.y < 0 {
            return Err(TextureError::NegativeSize);
        }

        match raw {
            Some(data) => {
                let ghost sx = size.x as int;
                let ghost sy = size.y as int;
                let ghost b = format.spec_color_size_in_bytes() as int;

                proof {
                    assert(1 <= b <= 4);
                    assert(0 <= sx * sy && sx * sy * b <= sx * sy * 4 && sx * sy * 4
                        < 0x10000000000000000int) by (nonlinear_arith)
                        requires
                            0 <= sx <= 0x7fffffffint,
                            0 <= sy <= 0x7fffffffint,
                            1 <= b <= 4,
                    ;
                }

                let expected: u64 = (size.x as u64) * (size.y as u64) * (
                format.color_size_in_bytes() as u64);

                if data.len() as u64 != expected {
                    return Err(TextureError::WrongRawSize);
                }
            },
            None => {},
        }

        Ok(Texture { id, width: size.x, height: size.y, format })
    }

    pub fn id(&self) -> (r: u32)
        ensures
            r == self.id,
    {
        self.id
    }

    /// Asks the GPU shell to bind this texture to the given texture unit.
    pub fn bind(&self, unit: u32, queue: &mut Vec<Command>)
        ensures
            final(queue)@ == old(queue)@.push(Command::BindTexture { unit, id: self.id }),
    {
        queue.push(Command::BindTexture { unit, id: self.id });
    }

    pub fn width(&self) -> (r: i32)
        ensures
            r == self.width,
    {
        self.width
    }

    pub fn height(&self) -> (r: i32)
        ensures
            r == self.height,
    {
        self.height
    }

    pub fn size(&self) -> (s: Vec2D)
        ensures
            s == (Vec2D { x: self.width, y: self.height }),
    {
        Vec2D { x: self.width, y: self.height }
    }

    pub fn format(&self) -> (f: Format)
        ensures
            f == self.format,
    {
        self.format
    }
}

} // verus!
