use vstd::prelude::*;

verus! {

/// The code the graphics API reports when no error is pending.
pub const GL_NO_ERROR: u32 = 0;

/// The first and last error codes the graphics API defines.
pub const GL_FIRST_ERROR: u32 = 0x0500;

pub const GL_LAST_ERROR: u32 = 0x0507;

/// A typed error reported by the GPU driver.
#[derive(Clone, Copy, Debug, PartialEq, Eq, Structural)]
pub enum GLError {
    InvalidEnum,
    InvalidValue,
    InvalidOperation,
    StackOverflow,
    StackUnderflow,
    OutOfMemory,
    InvalidFramebufferOperation,
    ContextLost,
}

/// The typed error for each defined error code, in the order the API
/// numbers them from `GL_FIRST_ERROR`.
pub open spec fn spec_gl_error(code: u32) -> GLError {
    if code == 0x0500 {
        GLError::InvalidEnum
    } else if code == 0x0501 {
        GLError::InvalidValue
    } else if code == 0x0502 {
        GLError::InvalidOperation
    } else if code == 0x0503 {
        GLError::StackOverflow
    } else if code == 0x0504 {
        GLError::StackUnderflow
    } else if code == 0x0505 {
        GLError::OutOfMemory
    } else if code == 0x0506 {
        GLError::InvalidFramebufferOperation
    } else {
        GLError::ContextLost
    }
}

/// Types the error code the caller read back from the GPU.  A code that the
/// API does not define is a caller error.
pub fn check_error(code: u32) -> (r: Result<(), GLError>)
    requires
        code == GL_NO_ERROR || GL_FIRST_ERROR <= code <= GL_LAST_ERROR,
    ensures
        r is Ok <==> code == GL_NO_ERROR,
        r matches Err(e) ==> e == spec_gl_error(code),
{
    if code == GL_NO_ERROR {
        Ok(())
    } else {
        Err(
            if code == 0x0500 {
                GLError::InvalidEnum
            } else if code == 0x0501 {
                GLError::InvalidValue
            } else if code == 0x0502 {
                GLError::InvalidOperation
            } else if code == 0x0503 {
                GLError::StackOverflow
            } else if code == 0x0504 {
                GLError::StackUnderflow
            } else if code == 0x0505 {
                GLError::OutOfMemory
            } else if code == 0x0506 {
                GLError::InvalidFramebufferOperation
            } else {
                GLError::ContextLost
            },
        )
    }
}

/// Crash-on-error checking: a pending GPU error is treated as a defect in
/// the calling code, so a caller must only reach this with no error pending.
pub fn unwrap_error(code: u32)
    requires
        code == GL_NO_ERROR,
{
    let r = check_error(code);

    match r {
        Ok(()) => {},
        Err(_) => {
            proof {
                assert(false);
            }
        },
    }
}

} // verus!
