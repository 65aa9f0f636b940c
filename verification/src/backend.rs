//! Numeric constants of the graphics backend.
//!
//! The values come from the `gl` bindings, which take them from the Khronos
//! registry (`gl.xml`, shipped by the crate `khronos_api`). Each
//! function below hands one constant to verified code together with the
//! number that the registry gives it. Verus takes that number on trust.

use vstd::prelude::*;

verus! {

/// `gl::FLOAT`, the backend's code for 32-bit floating-point components.
/// The registry defines `GL_FLOAT` as `0x1406`.
#[verifier::external_body]
pub(crate) fn float_code() -> (code: u32)
    ensures
        code == 0x1406,
{
    gl::FLOAT
}

/// `gl::UNSIGNED_INT`, the backend's code for 32-bit unsigned components.
/// The registry defines `GL_UNSIGNED_INT` as `0x1405`.
#[verifier::external_body]
pub(crate) fn unsigned_int_code() -> (code: u32)
    ensures
        code == 0x1405,
{
    gl::UNSIGNED_INT
}

/// `gl::TRUE`, the backend's boolean "true". The registry defines `GL_TRUE`
/// as `1`.
#[verifier::external_body]
pub(crate) fn true_code() -> (code: u8)
    ensures
        code == 1,
{
    gl::TRUE
}

/// `gl::FALSE`, the backend's boolean "false". The registry defines
/// `GL_FALSE` as `0`.
#[verifier::external_body]
pub(crate) fn false_code() -> (code: u8)
    ensures
        code == 0,
{
    gl::FALSE
}

/// `gl::COLOR_BUFFER_BIT`, the mask bit of the colour buffer. The registry
/// defines `GL_COLOR_BUFFER_BIT` as `0x00004000`.
#[verifier::external_body]
pub(crate) fn color_buffer_bit() -> (bit: u32)
    ensures
        bit == 0x4000,
{
    gl::COLOR_BUFFER_BIT
}

/// `gl::DEPTH_BUFFER_BIT`, the mask bit of the depth buffer. The registry
/// defines `GL_DEPTH_BUFFER_BIT` as `0x00000100`.
#[verifier::external_body]
pub(crate) fn depth_buffer_bit() -> (bit: u32)
    ensures
        bit == 0x100,
{
    gl::DEPTH_BUFFER_BIT
}

/// `gl::NO_ERROR`, the error flag that reports no pending error. The
/// registry defines `GL_NO_ERROR` as `0`.
#[verifier::external_body]
pub(crate) fn no_error() -> (flag: u32)
    ensures
        flag == 0,
{
    gl::NO_ERROR
}

/// `gl::TEXTURE0`, the code of the first texture unit. The registry defines
/// `GL_TEXTURE0` as `0x84C0`.
#[verifier::external_body]
pub(crate) fn texture0() -> (unit: u32)
    ensures
        unit == 0x84C0,
{
    gl::TEXTURE0
}

} // verus!
