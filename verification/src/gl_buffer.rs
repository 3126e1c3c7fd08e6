//! Buffer objects that are filled as a whole: a named buffer with its target
//! and usage, and the index and vertex buffers made of one.

use vstd::prelude::*;
use crate::buffer_layout::BufferLayout;
use crate::context::GlCall;
use crate::glenum;
use crate::shared_types::TypeInfo;

verus! {

/// A named buffer, the target it binds to and its usage hint.
#[derive(Debug, Clone, Copy, PartialEq, Eq, Structural)]
pub struct GLBuffer {
    pub id: u32,
    pub target: u32,
    pub usage: u32,
}

impl GLBuffer {
    /// The buffer named `id`.
    pub fn new(target: u32, usage: u32, id: u32) -> (buffer: Self)
        ensures
            buffer == (GLBuffer { id, target, usage }),
    {
        GLBuffer { id, target, usage }
    }

    /// The call that binds the buffer to its target.
    pub fn bind(&self) -> (call: GlCall)
        ensures
            call == (GlCall::BindBuffer { target: self.target, buffer: self.id }),
    {
        GlCall::BindBuffer { target: self.target, buffer: self.id }
    }

    /// The call that leaves no buffer bound to the target.
    pub fn unbind(&self) -> (call: GlCall)
        ensures
            call == (GlCall::BindBuffer { target: self.target, buffer: 0 }),
    {
        GlCall::BindBuffer { target: self.target, buffer: 0 }
    }

    /// The call that gives the bound buffer `size` bytes of empty storage.
    pub fn buffer_size(&self, size: u32) -> (call: GlCall)
        ensures
            call == (GlCall::BufferData { target: self.target, size, usage: self.usage }),
    {
        GlCall::BufferData { target: self.target, size, usage: self.usage }
    }

    /// The call that gives the name of the buffer back to the context.
    pub fn delete(&self) -> (call: GlCall)
        ensures
            call == (GlCall::DeleteBuffer { buffer: self.id }),
    {
        GlCall::DeleteBuffer { buffer: self.id }
    }
}

/// A buffer of indices and the number of indices in it.
#[derive(Debug, Clone, Copy, PartialEq, Eq, Structural)]
pub struct OpenGLIndexBuffer {
    pub size: u32,
    pub buffer: GLBuffer,
}

impl OpenGLIndexBuffer {
    /// The index buffer named `id`, filled once with `count` indices. The
    /// count is cut to 32 bits.
    pub fn new(count: usize, id: u32) -> (buffer: Self)
        ensures
            buffer == (OpenGLIndexBuffer {
                size: count as u32,
                buffer: GLBuffer {
                    id,
                    target: glenum::ELEMENT_ARRAY_BUFFER,
                    usage: glenum::STATIC_DRAW,
                },
            }),
    {
        OpenGLIndexBuffer {
            size: #[verifier::truncate]
            (count as u32),
            buffer: GLBuffer::new(glenum::ELEMENT_ARRAY_BUFFER, glenum::STATIC_DRAW, id),
        }
    }

    /// The call that binds the index buffer.
    pub fn bind(&self) -> (call: GlCall)
        ensures
            call == (GlCall::BindBuffer { target: self.buffer.target, buffer: self.buffer.id }),
    {
        self.buffer.bind()
    }

    /// The call that leaves no index buffer bound.
    pub fn unbind(&self) -> (call: GlCall)
        ensures
            call == (GlCall::BindBuffer { target: self.buffer.target, buffer: 0 }),
    {
        self.buffer.unbind()
    }

    /// The number of indices.
    pub fn length(&self) -> (length: u32)
        ensures
            length == self.size,
    {
        self.size
    }
}

/// A vertex buffer as contracts see it.
pub struct VertexBufferView {
    pub buffer: GLBuffer,
    pub layout: Option<Seq<TypeInfo>>,
}

/// A buffer of vertices and, once it is set, the layout of one vertex.
#[derive(Debug, Clone, PartialEq, Eq)]
pub struct OpenGLVertexBuffer {
    buffer: GLBuffer,
    layout: Option<BufferLayout>,
}

impl View for OpenGLVertexBuffer {
    type V = VertexBufferView;

    closed spec fn view(&self) -> VertexBufferView {
        VertexBufferView {
            buffer: self.buffer,
            layout: match self.layout {
                Some(layout) => Some(layout@),
                None => None,
            },
        }
    }
}

impl OpenGLVertexBuffer {
    /// The vertex buffer named `id`, without a layout.
    pub fn new(id: u32) -> (buffer: Self)
        ensures
            buffer@ == (VertexBufferView {
                buffer: GLBuffer { id, target: glenum::ARRAY_BUFFER, usage: glenum::STATIC_DRAW },
                layout: None,
            }),
    {
        OpenGLVertexBuffer {
            buffer: GLBuffer::new(glenum::ARRAY_BUFFER, glenum::STATIC_DRAW, id),
            layout: None,
        }
    }

    /// The named buffer behind the vertex buffer.
    pub fn buffer(&self) -> (buffer: GLBuffer)
        ensures
            buffer == self@.buffer,
    {
        self.buffer
    }

    /// The call that binds the vertex buffer.
    pub fn bind(&self) -> (call: GlCall)
        ensures
            call == (GlCall::BindBuffer { target: self@.buffer.target, buffer: self@.buffer.id }),
    {
        self.buffer.bind()
    }

    /// The call that leaves no vertex buffer bound.
    pub fn unbind(&self) -> (call: GlCall)
        ensures
            call == (GlCall::BindBuffer { target: self@.buffer.target, buffer: 0 }),
    {
        self.buffer.unbind()
    }

    /// Sets the layout of one vertex, replacing any layout set before.
    pub fn set_buffer_layout(&mut self, layout: BufferLayout)
        ensures
            final(self)@ == (VertexBufferView { buffer: old(self)@.buffer, layout: Some(layout@) }),
    {
        self.layout = Some(layout);
    }

    /// The layout of one vertex, if one was set.
    pub fn get_buffer_layout(&self) -> (layout: Option<&BufferLayout>)
        ensures
            match layout {
                Some(layout) => self@.layout == Some(layout@),
                None => self@.layout is None,
            },
    {
        self.layout.as_ref()
    }
}

} // verus!
