//! The OpenGL enumerants that the backend hands to the context.

use vstd::prelude::*;

verus! {

pub const TRIANGLES: u32 = 0x0004;

pub const TRIANGLE_STRIP: u32 = 0x0005;

pub const TRIANGLE_FAN: u32 = 0x0006;

pub const INT: u32 = 0x1404;

pub const UNSIGNED_INT: u32 = 0x1405;

pub const FLOAT: u32 = 0x1406;

pub const FLOAT_VEC2: u32 = 0x8B50;

pub const FLOAT_VEC3: u32 = 0x8B51;

pub const FLOAT_MAT4: u32 = 0x8B5C;

pub const CULL_FACE: u32 = 0x0B44;

pub const BACK: u32 = 0x0405;

pub const DEPTH_TEST: u32 = 0x0B71;

pub const DEPTH_BUFFER_BIT: u32 = 0x0000_0100;

pub const COLOR_BUFFER_BIT: u32 = 0x0000_4000;

pub const ARRAY_BUFFER: u32 = 0x8892;

pub const ELEMENT_ARRAY_BUFFER: u32 = 0x8893;

pub const UNIFORM_BUFFER: u32 = 0x8A11;

pub const STATIC_DRAW: u32 = 0x88E4;

pub const READ_WRITE: u32 = 0x88BA;

pub const VERTEX_SHADER: u32 = 0x8B31;

pub const FRAGMENT_SHADER: u32 = 0x8B30;

pub const TEXTURE_2D: u32 = 0x0DE1;

pub const TEXTURE_MAG_FILTER: u32 = 0x2800;

pub const TEXTURE_MIN_FILTER: u32 = 0x2801;

pub const LINEAR: u32 = 0x2601;

pub const RGBA: u32 = 0x1908;

/// The index the driver reports for a uniform block it does not know.
pub const INVALID_INDEX: u32 = 0xFFFF_FFFF;

} // verus!
