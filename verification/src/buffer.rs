//! Buffer objects.

use vstd::prelude::*;
use crate::api::{BufferDescriptor, Usage};
use crate::context::GlCall;
use crate::glenum;

verus! {

/// The binding target that goes with a buffer usage.
pub open spec fn buffer_target(u: Usage) -> u32 {
    match u {
        Usage::Vertex => glenum::ARRAY_BUFFER,
        Usage::Index => glenum::ELEMENT_ARRAY_BUFFER,
        Usage::Uniform => glenum::UNIFORM_BUFFER,
    }
}

/// Computes [`buffer_target`].
pub fn to_gl_buffer_type(u: &Usage) -> (target: u32)
    ensures
        target == buffer_target(*u),
{
    match u {
        Usage::Vertex => glenum::ARRAY_BUFFER,
        Usage::Index => glenum::ELEMENT_ARRAY_BUFFER,
        Usage::Uniform => glenum::UNIFORM_BUFFER,
    }
}

/// Handle of a buffer object: its name in the context, the target it binds
/// to, its usage hint and its size in bytes.
#[derive(Debug, Clone, Copy, PartialEq, Eq, Structural)]
pub struct OpenGlBuffer {
    pub id: u32,
    pub target: u32,
    pub usage: u32,
    pub size: u32,
}

impl OpenGlBuffer {
    /// The handle for the buffer name `id`, laid out as `desc` asks, and the
    /// calls that set the buffer up: bind it, then allocate its storage.
    pub fn new(id: u32, desc: BufferDescriptor) -> (made: (OpenGlBuffer, Vec<GlCall>))
        ensures
            made.0 == (OpenGlBuffer {
                id,
                target: buffer_target(desc.usage),
                usage: glenum::STATIC_DRAW,
                size: desc.size,
            }),
            made.1@ == seq![
                made.0.bind_call(),
                GlCall::BufferData { target: made.0.target, size: desc.size, usage: glenum::STATIC_DRAW },
            ],
    {
        let buffer = OpenGlBuffer {
            id,
            target: to_gl_buffer_type(&desc.usage),
            usage: glenum::STATIC_DRAW,
            size: desc.size,
        };
        let mut calls: Vec<GlCall> = Vec::new();
        calls.push(buffer.bind());
        calls.push(Self::buffer_empty(&buffer));
        (buffer, calls)
    }

    /// The call that binds this buffer to its target.
    pub open spec fn bind_call(self) -> GlCall {
        GlCall::BindBuffer { target: self.target, buffer: self.id }
    }

    /// Returns [`Self::bind_call`].
    pub fn bind(&self) -> (call: GlCall)
        ensures
            call == self.bind_call(),
    {
        GlCall::BindBuffer { target: self.target, buffer: self.id }
    }

    /// The call that gives a bound buffer its (empty) storage.
    pub fn buffer_empty(buffer: &OpenGlBuffer) -> (call: GlCall)
        ensures
            call == (GlCall::BufferData {
                target: buffer.target,
                size: buffer.size,
                usage: buffer.usage,
            }),
    {
        GlCall::BufferData { target: buffer.target, size: buffer.size, usage: buffer.usage }
    }

    /// The calls that map the buffer for reading and writing: bind it, then
    /// map its target.
    pub fn mapper(buffer: &OpenGlBuffer) -> (calls: Vec<GlCall>)
        ensures
            calls@ == seq![
                buffer.bind_call(),
                GlCall::MapBuffer { target: buffer.target, access: glenum::READ_WRITE },
            ],
    {
        let mut calls: Vec<GlCall> = Vec::new();
        calls.push(buffer.bind());
        calls.push(GlCall::MapBuffer { target: buffer.target, access: glenum::READ_WRITE });
        calls
    }

    /// The call that ends a mapping of the buffer.
    pub fn unmap(buffer: &OpenGlBuffer) -> (calls: Vec<GlCall>)
        ensures
            calls@ == seq![GlCall::UnmapBuffer { target: buffer.target }],
    {
        let mut calls: Vec<GlCall> = Vec::new();
        calls.push(GlCall::UnmapBuffer { target: buffer.target });
        calls
    }
}

} // verus!
