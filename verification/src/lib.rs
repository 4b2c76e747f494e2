use vstd::prelude::*;

pub mod buffers;
pub mod input;
pub mod textures;

verus! {

/// The graphics driver's code for a 32-bit floating-point attribute component.
pub const GL_FLOAT: u32 = 0x1406;

/// The graphics driver's code for a 32-bit signed integer attribute component.
pub const GL_INT: u32 = 0x1404;

/// Byte width of one attribute component of the given driver type code.
/// Only the two codes the renderer uses are given a meaning.
pub open spec fn gl_type_size(gl_type: u32) -> u32 {
    if gl_type == GL_FLOAT {
        4
    } else if gl_type == GL_INT {
        4
    } else {
        0
    }
}

/// Byte width of one attribute component; a float and an int are four bytes each.
pub fn size_of(glenum: u32) -> (n: u32)
    requires
        glenum == GL_FLOAT || glenum == GL_INT,
    ensures
        n == gl_type_size(glenum),
{
    4
}

/// Clamps `value` into `min..=max`; when the bounds cross, the upper bound
/// wins for values above it, the lower for values below it.
pub fn clamp(value: usize, min: usize, max: usize) -> (r: usize)
    ensures
        r == if value < min {
            min
        } else if value > max {
            max
        } else {
            value
        },
{
    if value < min {
        min
    } else if value > max {
        max
    } else {
        value
    }
}

} // verus!
