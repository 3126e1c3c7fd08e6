//! Plain descriptors shared by every backend: buffers, shaders, vertex
//! layouts, descriptor-set layouts and window events.

use vstd::prelude::*;
use crate::buffer::OpenGlBuffer;
use crate::layout::{OpenGlDescriptorSet, OpenGlPipelineLayout};
use crate::shader_mod::OpenGlShaderMod;

pub mod image;

verus! {

/// Requested size of the window that hosts the rendering context.
#[derive(Debug, Clone, Copy, PartialEq, Eq, Structural)]
pub struct WindowConfig {
    pub width: u32,
    pub height: u32,
}

/// Platform key code.
pub type Code = u32;

/// What happened to a key.
#[derive(Debug, Clone, Copy, PartialEq, Eq, Structural)]
pub enum Action {
    Press,
    Release,
    Repeat,
}

/// A window event as the platform layer reports it.
#[derive(Debug, Clone, Copy, PartialEq, Eq, Structural)]
pub enum Event {
    Resize(i32, i32),
    Key(Code, Action),
    Unhandled,
}

/// What a buffer is going to be used for.
#[derive(Debug, Clone, Copy, PartialEq, Eq, Structural)]
pub enum Usage {
    Vertex,
    Index,
    Uniform,
}

/// Declares the size and the intended use of a buffer.
#[derive(Debug, Clone, Copy, PartialEq, Eq, Structural)]
pub struct BufferDescriptor {
    pub size: u32,
    pub usage: Usage,
}

/// One vertex-buffer binding slot and the distance in bytes between two
/// consecutive elements read from it.
#[derive(Debug, Clone, Copy, PartialEq, Eq, Structural)]
pub struct VertexBufferDescriptor {
    pub binding: u8,
    pub stride: usize,
}

/// Element type of a vertex attribute.
#[derive(Debug, Clone, Copy, PartialEq, Eq, Structural)]
pub enum DataType {
    Vec3f32,
    Vec2f32,
    Mat4f32,
}

/// Where an attribute starts inside one element of its buffer, and its type.
#[derive(Debug, Clone, Copy, PartialEq, Eq, Structural)]
pub struct VertexData {
    pub offset: usize,
    pub data_type: DataType,
}

/// A vertex attribute: the binding slot it reads from, the shader location
/// it feeds and the data found there.
#[derive(Debug, Clone, Copy, PartialEq, Eq, Structural)]
pub struct AttributeDescriptor {
    pub binding: u16,
    pub location: u32,
    pub data: VertexData,
}

/// Primitive topology of a draw.
#[derive(Debug, Clone, Copy, PartialEq, Eq, Structural)]
pub enum Primitive {
    Triangles,
    TrianglesFan,
    TrianglesStrip,
    Quads,
}

/// Pipeline stage of a shader module.
#[derive(Debug, Clone, Copy, PartialEq, Eq, Structural)]
pub enum ShaderType {
    Vertex,
    Fragment,
}

/// Source text of one shader stage.
#[derive(Debug, Clone, PartialEq, Eq)]
pub struct ShaderModDescriptor {
    pub stype: ShaderType,
    pub source: String,
}

/// Kind of resource behind a descriptor-set binding.
#[derive(Debug, Clone, Copy, PartialEq, Eq, Structural)]
pub enum DescriptorType {
    UniformBuffer,
    Sampler,
}

/// One binding point of a descriptor-set layout.
#[derive(Debug, Clone, Copy, PartialEq, Eq, Structural)]
pub struct DescriptorSetLayoutBinding {
    pub binding: u32,
    pub desc: DescriptorType,
}

/// How a binding point is to be found in the linked program.
#[derive(Debug, Clone, Copy, PartialEq, Eq)]
pub enum LayoutHint {
    /// Look the uniform block up by this name.
    Name(&'static str),
}

/// Attaches a [`LayoutHint`] to the binding point `location`.
#[derive(Debug, Clone, Copy, PartialEq, Eq)]
pub struct PipelineLayoutHint {
    pub location: u32,
    pub hint: LayoutHint,
}

/// The two shader stages of a pipeline.
#[derive(Debug, Clone, Copy, PartialEq, Eq, Structural)]
pub struct ShaderSet {
    pub vertex: OpenGlShaderMod,
    pub fragment: OpenGlShaderMod,
}

/// Everything a pipeline is built from: topology, shaders, the layout of its
/// binding points, and the vertex buffers and attributes it reads.
#[derive(Debug)]
pub struct PipelineDescriptor<'a> {
    pub primitives: Primitive,
    pub shader_set: ShaderSet,
    pub layout: &'a OpenGlPipelineLayout,
    pub vertex_buffers: Vec<VertexBufferDescriptor>,
    pub vertex_attributes: Vec<AttributeDescriptor>,
}

impl<'a> PipelineDescriptor<'a> {
    /// A descriptor without vertex buffers or attributes.
    pub fn new(primitive: Primitive, shader_set: ShaderSet, layout: &'a OpenGlPipelineLayout) -> (desc:
        PipelineDescriptor<'a>)
        ensures
            desc.primitives == primitive,
            desc.shader_set == shader_set,
            desc.layout == layout,
            desc.vertex_buffers@ == Seq::<VertexBufferDescriptor>::empty(),
            desc.vertex_attributes@ == Seq::<AttributeDescriptor>::empty(),
    {
        PipelineDescriptor {
            primitives: primitive,
            shader_set,
            layout,
            vertex_buffers: Vec::new(),
            vertex_attributes: Vec::new(),
        }
    }

    /// Appends a vertex-buffer binding slot.
    pub fn push_vb(&mut self, desc: VertexBufferDescriptor)
        ensures
            final(self).vertex_buffers@ == old(self).vertex_buffers@.push(desc),
            final(self).vertex_attributes@ == old(self).vertex_attributes@,
            final(self).primitives == old(self).primitives,
            final(self).shader_set == old(self).shader_set,
            final(self).layout == old(self).layout,
    {
        self.vertex_buffers.push(desc);
    }

    /// Appends a vertex attribute.
    pub fn push_attr(&mut self, desc: AttributeDescriptor)
        ensures
            final(self).vertex_attributes@ == old(self).vertex_attributes@.push(desc),
            final(self).vertex_buffers@ == old(self).vertex_buffers@,
            final(self).primitives == old(self).primitives,
            final(self).shader_set == old(self).shader_set,
            final(self).layout == old(self).layout,
    {
        self.vertex_attributes.push(desc);
    }
}

/// The resource written into a descriptor set.
#[derive(Debug, Clone, Copy)]
pub enum Descriptor<'a> {
    Buffer(&'a OpenGlBuffer),
}

/// Writes `descriptor` to the binding point `binding` of `set`.
#[derive(Debug, Clone, Copy)]
pub struct DescriptorSetWrite<'a> {
    pub set: &'a OpenGlDescriptorSet,
    pub binding: u32,
    pub descriptor: Descriptor<'a>,
}

} // verus!
