//! Vertex arrays that take whole vertex buffers: every element of the
//! buffer's layout becomes the next attribute of the array.

use vstd::prelude::*;
use crate::buffer_layout::{
    lemma_total_bytes_grows, lemma_total_bytes_nonnegative, scalar_type, to_gl_type, total_bytes,
};
use crate::context::GlCall;
use crate::gl_buffer::{OpenGLIndexBuffer, OpenGLVertexBuffer, VertexBufferView};
use crate::glenum;
use crate::shared_types::TypeInfo;

verus! {

/// The state of a vertex array as contracts see it.
pub struct VertexArrayView {
    pub id: u32,
    /// The location that the next element will be attached to.
    pub attribute_index: u32,
    pub index_buffer: Option<OpenGLIndexBuffer>,
    /// The vertex buffers attached so far, in their order.
    pub vertex_buffers: Seq<VertexBufferView>,
}

/// A vertex array with the buffers that were attached to it.
#[derive(Debug, PartialEq, Eq)]
pub struct OpenGLVertexArray {
    id: u32,
    attribute_index: u32,
    index_buffer: Option<OpenGLIndexBuffer>,
    vertex_buffers: Vec<OpenGLVertexBuffer>,
}

impl View for OpenGLVertexArray {
    type V = VertexArrayView;

    closed spec fn view(&self) -> VertexArrayView {
        VertexArrayView {
            id: self.id,
            attribute_index: self.attribute_index,
            index_buffer: self.index_buffer,
            vertex_buffers: Seq::new(self.vertex_buffers@.len(), |i: int| self.vertex_buffers@[i]@),
        }
    }
}

/// The calls that attach `elements`, which lie one after the other in each
/// vertex of `buffer`, to the locations from `first` on: for each element the
/// buffer is bound, the location is pointed at the element and enabled.
pub open spec fn element_calls(buffer: u32, stride: usize, first: u32, elements: Seq<TypeInfo>) -> Seq<
    GlCall,
>
    decreases elements.len(),
{
    if elements.len() == 0 {
        Seq::empty()
    } else {
        let location = (first + elements.len() - 1) as u32;
        element_calls(buffer, stride, first, elements.drop_last()) + seq![
            GlCall::BindBuffer { target: glenum::ARRAY_BUFFER, buffer },
            GlCall::VertexAttribPointer {
                location,
                components: elements.last().0,
                scalar: scalar_type(elements.last().3),
                normalized: false,
                stride,
                offset: total_bytes(elements.drop_last()) as usize,
            },
            GlCall::EnableVertexAttribArray { location },
        ]
    }
}

/// Whether a vertex array whose next location is `next` can take a vertex
/// buffer with the layout `layout`: the buffer has a layout, the locations
/// stay in range and the size of a vertex is a valid stride.
pub open spec fn attachable(next: u32, layout: Option<Seq<TypeInfo>>) -> bool {
    layout is Some && next + layout.unwrap().len() <= u32::MAX && total_bytes(layout.unwrap())
        <= usize::MAX
}

/// The calls that attach a vertex buffer to `array`: between a bind and an
/// unbind of the array, those of [`element_calls`] for the elements of the
/// buffer's layout, with the size of one vertex as the stride.
pub open spec fn attach_calls(array: VertexArrayView, vertex_buffer: VertexBufferView) -> Seq<GlCall> {
    seq![GlCall::BindVertexArray { vao: array.id }] + element_calls(
        vertex_buffer.buffer.id,
        total_bytes(vertex_buffer.layout.unwrap()) as usize,
        array.attribute_index,
        vertex_buffer.layout.unwrap(),
    ) + seq![GlCall::BindVertexArray { vao: 0 }]
}

impl OpenGLVertexArray {
    /// The vertex array named `id`, with nothing attached.
    pub fn new(id: u32) -> (array: Self)
        ensures
            array@ == (VertexArrayView {
                id,
                attribute_index: 0,
                index_buffer: None,
                vertex_buffers: Seq::empty(),
            }),
    {
        let array = OpenGLVertexArray {
            id,
            attribute_index: 0,
            index_buffer: None,
            vertex_buffers: Vec::new(),
        };
        proof {
            assert(array@.vertex_buffers =~= Seq::<VertexBufferView>::empty());
        }
        array
    }

    /// The name of the vertex array.
    pub fn id(&self) -> (id: u32)
        ensures
            id == self@.id,
    {
        self.id
    }

    /// The call that binds the vertex array.
    pub fn bind(&self) -> (call: GlCall)
        ensures
            call == (GlCall::BindVertexArray { vao: self@.id }),
    {
        GlCall::BindVertexArray { vao: self.id }
    }

    /// The call that leaves no vertex array bound.
    pub fn unbind(&self) -> (call: GlCall)
        ensures
            call == (GlCall::BindVertexArray { vao: 0 }),
    {
        GlCall::BindVertexArray { vao: 0 }
    }

    /// The call that gives the name of the array back to the context.
    pub fn delete(&self) -> (call: GlCall)
        ensures
            call == (GlCall::DeleteVertexArray { vao: self@.id }),
    {
        GlCall::DeleteVertexArray { vao: self.id }
    }

    /// Attaches `vertex_buffer`: the elements of its layout go to the next
    /// free locations, and the array keeps the buffer. Returns the calls
    /// this takes. Where the buffer cannot be attached nothing changes, and
    /// the buffer is handed back.
    pub fn add_vertex_buffer(&mut self, vertex_buffer: OpenGLVertexBuffer) -> (res: Result<
        Vec<GlCall>,
        OpenGLVertexBuffer,
    >)
        ensures
            attachable(old(self)@.attribute_index, vertex_buffer@.layout) ==> res is Ok
                && res->Ok_0@ == attach_calls(old(self)@, vertex_buffer@) && final(self)@
                == (VertexArrayView {
                attribute_index: (old(self)@.attribute_index
                    + vertex_buffer@.layout.unwrap().len()) as u32,
                vertex_buffers: old(self)@.vertex_buffers.push(vertex_buffer@),
                ..old(self)@
            }),
            !attachable(old(self)@.attribute_index, vertex_buffer@.layout) ==> res
                == Err::<Vec<GlCall>, OpenGLVertexBuffer>(vertex_buffer) && final(self)@
                == old(self)@,
    {
        let first: u32 = self.attribute_index;
        let buffer: u32 = vertex_buffer.buffer().id;
        let mut calls: Vec<GlCall> = Vec::new();
        let count: usize;
        match vertex_buffer.get_buffer_layout() {
            None => {
                return Err(vertex_buffer);
            },
            Some(layout) => {
                let elements = layout.elements();
                proof {
                    lemma_total_bytes_nonnegative(layout@);
                }
                if elements.len() > (u32::MAX - first) as usize {
                    return Err(vertex_buffer);
                }
                let stride: usize = match layout.checked_stride() {
                    Some(stride) => if stride <= usize::MAX as u64 {
                        stride as usize
                    } else {
                        return Err(vertex_buffer);
                    },
                    None => {
                        return Err(vertex_buffer);
                    },
                };
                calls.push(self.bind());
                let mut offset: usize = 0;
                let mut i: usize = 0;
                proof {
                    assert(calls@ =~= seq![GlCall::BindVertexArray { vao: self.id }]
                        + element_calls(buffer, stride, first, elements@.take(0)));
                }
                while i < elements.len()
                    invariant
                        i <= elements.len(),
                        first + elements.len() <= u32::MAX,
                        stride == total_bytes(elements@),
                        offset == total_bytes(elements@.take(i as int)),
                        *self == *old(self),
                        calls@ == seq![GlCall::BindVertexArray { vao: self.id }] + element_calls(
                            buffer,
                            stride,
                            first,
                            elements@.take(i as int),
                        ),
                    decreases elements.len() - i,
                {
                    let e = elements[i];
                    let location: u32 = first + i as u32;
                    proof {
                        assert(elements@.take(i + 1).drop_last() =~= elements@.take(i as int));
                        lemma_total_bytes_grows(elements@, i + 1);
                    }
                    calls.push(GlCall::BindBuffer { target: glenum::ARRAY_BUFFER, buffer });
                    calls.push(
                        GlCall::VertexAttribPointer {
                            location,
                            components: e.0,
                            scalar: to_gl_type(&e.3),
                            normalized: false,
                            stride,
                            offset,
                        },
                    );
                    calls.push(GlCall::EnableVertexAttribArray { location });
                    proof {
                        assert(calls@ =~= seq![GlCall::BindVertexArray { vao: self.id }]
                            + element_calls(buffer, stride, first, elements@.take(i + 1)));
                    }
                    offset = offset + e.2 as usize;
                    i += 1;
                }
                proof {
                    assert(elements@.take(elements.len() as int) =~= elements@);
                }
                count = elements.len();
            },
        }
        calls.push(self.unbind());
        self.attribute_index = first + count as u32;
        self.vertex_buffers.push(vertex_buffer);
        proof {
            assert(self@.vertex_buffers =~= old(self)@.vertex_buffers.push(vertex_buffer@));
        }
        Ok(calls)
    }

    /// Makes `index_buffer` the index buffer of the array and returns the
    /// calls this takes: bind the array, bind the buffer, unbind the array.
    pub fn set_index_buffer(&mut self, index_buffer: OpenGLIndexBuffer) -> (calls: Vec<GlCall>)
        ensures
            final(self)@ == (VertexArrayView { index_buffer: Some(index_buffer), ..old(self)@ }),
            calls@ == seq![
                GlCall::BindVertexArray { vao: old(self)@.id },
                GlCall::BindBuffer {
                    target: index_buffer.buffer.target,
                    buffer: index_buffer.buffer.id,
                },
                GlCall::BindVertexArray { vao: 0 },
            ],
    {
        let mut calls: Vec<GlCall> = Vec::new();
        calls.push(self.bind());
        calls.push(index_buffer.bind());
        calls.push(self.unbind());
        self.index_buffer = Some(index_buffer);
        calls
    }

    /// The index buffer of the array, if one was set.
    pub fn get_index_buffer(&self) -> (index_buffer: Option<OpenGLIndexBuffer>)
        ensures
            index_buffer == self@.index_buffer,
    {
        self.index_buffer
    }

    /// The calls that draw the whole index buffer of the array as triangles:
    /// bind the array, draw every index, unbind the array. `None` where the
    /// array has no index buffer.
    pub fn draw_indexed(&self) -> (calls: Option<Vec<GlCall>>)
        ensures
            match self@.index_buffer {
                Some(index_buffer) => calls is Some && calls->Some_0@ == seq![
                    GlCall::BindVertexArray { vao: self@.id },
                    GlCall::DrawElements {
                        mode: glenum::TRIANGLES,
                        count: index_buffer.size,
                        index_type: glenum::UNSIGNED_INT,
                        offset: 0,
                    },
                    GlCall::BindVertexArray { vao: 0 },
                ],
                None => calls is None,
            },
    {
        match self.index_buffer {
            Some(index_buffer) => {
                let mut calls: Vec<GlCall> = Vec::new();
                calls.push(self.bind());
                calls.push(
                    GlCall::DrawElements {
                        mode: glenum::TRIANGLES,
                        count: index_buffer.length(),
                        index_type: glenum::UNSIGNED_INT,
                        offset: 0,
                    },
                );
                calls.push(self.unbind());
                Some(calls)
            },
            None => None,
        }
    }
}

} // verus!
