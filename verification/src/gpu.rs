//! What the GPU answers: its error state after a render pass, and its
//! yes-or-no answers.
//!
//! Errors of single calls are not caught one by one. The host reads the
//! aggregate error code at the end of a pass and hands it here; any code but
//! "no error" is fatal and comes with a diagnostic.

use crate::glsl::{decimal, decimal_digits};
use vstd::prelude::*;

verus! {

/// The constant `NO_ERROR` of the `gl` bindings: the code that the GPU gives
/// when no error is recorded. The OpenGL registry fixes it as 0.
#[verifier::external_body]
fn no_error() -> (code: u32)
    ensures
        code == 0,
{
    gl::NO_ERROR
}

/// The constant `INVALID_ENUM` of the `gl` bindings. The OpenGL registry
/// fixes it as 0x0500.
#[verifier::external_body]
fn invalid_enum() -> (code: u32)
    ensures
        code == 0x0500,
{
    gl::INVALID_ENUM
}

/// The constant `INVALID_VALUE` of the `gl` bindings. The OpenGL registry
/// fixes it as 0x0501.
#[verifier::external_body]
fn invalid_value() -> (code: u32)
    ensures
        code == 0x0501,
{
    gl::INVALID_VALUE
}

/// The constant `INVALID_OPERATION` of the `gl` bindings. The OpenGL
/// registry fixes it as 0x0502.
#[verifier::external_body]
fn invalid_operation() -> (code: u32)
    ensures
        code == 0x0502,
{
    gl::INVALID_OPERATION
}

/// The constant `INVALID_FRAMEBUFFER_OPERATION` of the `gl` bindings. The
/// OpenGL registry fixes it as 0x0506.
#[verifier::external_body]
fn invalid_framebuffer_operation() -> (code: u32)
    ensures
        code == 0x0506,
{
    gl::INVALID_FRAMEBUFFER_OPERATION
}

/// The constant `OUT_OF_MEMORY` of the `gl` bindings. The OpenGL registry
/// fixes it as 0x0505.
#[verifier::external_body]
fn out_of_memory() -> (code: u32)
    ensures
        code == 0x0505,
{
    gl::OUT_OF_MEMORY
}

/// The constant `TRUE` of the `gl` bindings: the answer "yes" of the GPU's
/// yes-or-no queries. The OpenGL registry fixes it as 1.
#[verifier::external_body]
fn gl_true() -> (flag: u8)
    ensures
        flag == 1,
{
    gl::TRUE
}

/// Reads the GPU's answer to the question whether a handle names a program:
/// only the answer "yes" counts.
pub fn names_program(answer: u8) -> (yes: bool)
    ensures
        yes == (answer == 1),
{
    answer == gl_true()
}

/// An error that the GPU recorded.
#[derive(Clone, Copy, Debug, PartialEq, Eq, Structural)]
pub enum GpuError {
    InvalidEnum,
    InvalidValue,
    InvalidOperation,
    InvalidFramebufferOperation,
    OutOfMemory,
    /// A code that stands for none of the errors above.
    Other { code: u32 },
}

/// What an error code means: nothing for "no error", else the error.
pub open spec fn error_of(code: u32) -> Option<GpuError> {
    if code == 0 {
        None
    } else if code == 0x0500 {
        Some(GpuError::InvalidEnum)
    } else if code == 0x0501 {
        Some(GpuError::InvalidValue)
    } else if code == 0x0502 {
        Some(GpuError::InvalidOperation)
    } else if code == 0x0506 {
        Some(GpuError::InvalidFramebufferOperation)
    } else if code == 0x0505 {
        Some(GpuError::OutOfMemory)
    } else {
        Some(GpuError::Other { code: code })
    }
}

/// Reads the GPU's error code. `Ok` exactly for "no error"; every other code
/// is an error, and fatal.
pub fn check_error(code: u32) -> (status: Result<(), GpuError>)
    ensures
        status is Ok <==> code == 0,
        status == match error_of(code) {
            None => Ok::<(), GpuError>(()),
            Some(e) => Err(e),
        },
{
    if code == no_error() {
        Ok(())
    } else if code == invalid_enum() {
        Err(GpuError::InvalidEnum)
    } else if code == invalid_value() {
        Err(GpuError::InvalidValue)
    } else if code == invalid_operation() {
        Err(GpuError::InvalidOperation)
    } else if code == invalid_framebuffer_operation() {
        Err(GpuError::InvalidFramebufferOperation)
    } else if code == out_of_memory() {
        Err(GpuError::OutOfMemory)
    } else {
        Err(GpuError::Other { code: code })
    }
}

impl GpuError {
    /// The diagnostic for the error.
    pub open spec fn diagnostic(self) -> Seq<char> {
        match self {
            GpuError::InvalidEnum => "Invalid enum!"@,
            GpuError::InvalidValue => "Invalid value!"@,
            GpuError::InvalidOperation => "Invalid operation!"@,
            GpuError::InvalidFramebufferOperation => "Invalid framebuffer operation?!"@,
            GpuError::OutOfMemory => "Out of memory bro!!!!!!!"@,
            GpuError::Other { code } => "OpenGL Error: "@ + decimal_digits(code as nat),
        }
    }

    /// The diagnostic to abort with.
    pub fn message(&self) -> (text: String)
        ensures
            text@ == self.diagnostic(),
    {
        match self {
            GpuError::InvalidEnum => String::from_str("Invalid enum!"),
            GpuError::InvalidValue => String::from_str("Invalid value!"),
            GpuError::InvalidOperation => String::from_str("Invalid operation!"),
            GpuError::InvalidFramebufferOperation => String::from_str(
                "Invalid framebuffer operation?!",
            ),
            GpuError::OutOfMemory => String::from_str("Out of memory bro!!!!!!!"),
            GpuError::Other { code } => {
                let mut text = String::from_str("OpenGL Error: ");
                let digits = decimal(*code);
                text.append(digits.as_str());
                text
            },
        }
    }
}

} // verus!
