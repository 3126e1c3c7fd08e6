//! The calls that the backend asks of the graphics context.
//!
//! The library never holds a context. Each operation that would drive one
//! returns the calls to be made, in order, as values of [`GlCall`]; whoever
//! owns the context issues them.

use vstd::prelude::*;

verus! {

/// One call on the graphics context, with the arguments it is to be made
/// with. Colour components are carried as the bit patterns of their
/// single-precision values.
#[derive(Debug, Clone, Copy, PartialEq, Eq, Structural)]
#[allow(inconsistent_fields)]
pub enum GlCall {
    AttachShader { program: u32, shader: u32 },
    LinkProgram { program: u32 },
    DetachShader { program: u32, shader: u32 },
    DeleteShader { shader: u32 },
    DeleteProgram { program: u32 },
    DeleteBuffer { buffer: u32 },
    DeleteVertexArray { vao: u32 },
    BindVertexArray { vao: u32 },
    UseProgram { program: u32 },
    Enable { cap: u32 },
    CullFace { mode: u32 },
    BindBuffer { target: u32, buffer: u32 },
    /// Allocates `size` bytes of uninitialised storage.
    BufferData { target: u32, size: u32, usage: u32 },
    MapBuffer { target: u32, access: u32 },
    UnmapBuffer { target: u32 },
    BindBufferBase { target: u32, index: u32, buffer: u32 },
    VertexAttribPointer {
        location: u32,
        components: u8,
        scalar: u32,
        normalized: bool,
        stride: usize,
        offset: usize,
    },
    EnableVertexAttribArray { location: u32 },
    VertexAttribDivisor { location: u32, divisor: u32 },
    UniformBlockBinding { program: u32, block: u32, binding: u32 },
    /// `offset` is the byte offset into the bound index buffer.
    DrawElements { mode: u32, count: u32, index_type: u32, offset: u32 },
    DrawElementsInstanced { mode: u32, count: u32, index_type: u32, offset: u32, instances: u32 },
    ClearColor { red: u32, green: u32, blue: u32, alpha: u32 },
    Clear { mask: u32 },
    Viewport { x: i32, y: i32, width: i32, height: i32 },
    BindTexture { target: u32, texture: u32 },
    TexParameteri { target: u32, name: u32, value: u32 },
    /// Uploads the caller's pixel data as level `level` of the bound texture.
    TexImage2D {
        target: u32,
        level: u16,
        internal_format: u32,
        width: u32,
        height: u32,
        format: u32,
        pixel_type: u32,
    },
}

} // verus!
