//! The device: the factory of every resource, and the one place where a
//! command buffer is turned into calls.
//!
//! The device holds no context. Where the creation of a resource needs a
//! name from the context, the caller obtains the name and hands it in; where
//! an operation drives the context, the calls to make are returned.

use vstd::prelude::*;
use crate::api::image::Kind as ImageKind;
use crate::api::{
    BufferDescriptor, Descriptor, DescriptorSetLayoutBinding, DescriptorSetWrite,
    PipelineDescriptor, PipelineLayoutHint, ShaderModDescriptor,
};
use crate::attribute::PipelineError;
use crate::buffer::OpenGlBuffer;
use crate::command::{replay, CommandView, OpenGlCommandBuffer};
use crate::context::GlCall;
use crate::glenum;
use crate::image::OpenGlImage;
use crate::layout::{
    bindings_map, first_misfit, unhinted, with_hints, LayoutError, OpenGlDescriptorSet,
    OpenGlDescriptorSetLayout, OpenGlPipelineLayout,
};
use crate::memory::{
    flush_plan, follows, is_bound, map_plan, unmap_plan, Kind, MemoryError, MemoryView,
    OpenGlMemory,
};
use crate::pipeline::{
    buildable, built, refusal, DriverReport, ExecuteError, OpenGlPipeline,
};
use crate::shader_mod::{stage_kind, OpenGlShaderMod};

verus! {

/// The resource factory of the backend.
#[derive(Debug, Clone, Copy, PartialEq, Eq, Structural)]
pub struct OpenGLRendererDevice;

/// The per-frame entry points of the backend that are no resource
/// operations: viewport and clear.
#[derive(Debug, Clone, Copy, PartialEq, Eq, Structural)]
pub struct OpenGLRendererApi;

impl OpenGLRendererDevice {
    /// The device.
    pub fn new() -> (device: Self) {
        OpenGLRendererDevice
    }

    /// Fresh memory of `size` bytes, bound to nothing.
    pub fn allocate_memory(&self, size: u32) -> (memory: OpenGlMemory)
        ensures
            memory@ == (MemoryView { capacity: size, kind: Kind::Unbinded(false) }),
    {
        OpenGlMemory::allocate(size)
    }

    /// The calls that map `memory`: bind and map for memory bound to a
    /// buffer; unbound memory and memory bound to an image are refused.
    pub fn map_memory(&self, memory: &OpenGlMemory) -> (res: Result<Vec<GlCall>, MemoryError>)
        ensures
            follows(res, map_plan(memory@.kind)),
    {
        memory.map_memory()
    }

    /// The calls that make writes through a mapping of `memory` visible:
    /// none for memory bound to a buffer; unbound memory and memory bound to
    /// an image are refused.
    pub fn flush_memory(&self, memory: &OpenGlMemory) -> (res: Result<Vec<GlCall>, MemoryError>)
        ensures
            follows(res, flush_plan(memory@.kind)),
    {
        memory.flush_memory()
    }

    /// The calls that end a mapping of `memory`: one unmap of the target for
    /// memory bound to a buffer; unbound memory and memory bound to an image
    /// are refused.
    pub fn unmap_memory(&self, memory: &OpenGlMemory) -> (res: Result<Vec<GlCall>, MemoryError>)
        ensures
            follows(res, unmap_plan(memory@.kind)),
    {
        memory.unmap_memory()
    }

    /// Binds unbound `memory` to `buffer`; bound memory is left as it is and
    /// the call is refused.
    pub fn bind_buffer_memory(&self, memory: &mut OpenGlMemory, buffer: &OpenGlBuffer) -> (res:
        Result<(), MemoryError>)
        ensures
            final(memory)@.capacity == old(memory)@.capacity,
            is_bound(old(memory)@.kind) ==> res == Err::<(), MemoryError>(
                MemoryError::AlreadyBound,
            ) && final(memory)@ == old(memory)@,
            !is_bound(old(memory)@.kind) ==> res is Ok && final(memory)@.kind == Kind::Buffer(
                *buffer,
            ),
    {
        memory.bind_buffer(buffer)
    }

    /// Binds unbound `memory` to `image`; bound memory is left as it is and
    /// the call is refused.
    pub fn bind_image_memory(&self, memory: &mut OpenGlMemory, image: &OpenGlImage) -> (res:
        Result<(), MemoryError>)
        ensures
            final(memory)@.capacity == old(memory)@.capacity,
            is_bound(old(memory)@.kind) ==> res == Err::<(), MemoryError>(
                MemoryError::AlreadyBound,
            ) && final(memory)@ == old(memory)@,
            !is_bound(old(memory)@.kind) ==> res is Ok && final(memory)@.kind == Kind::Texture(
                *image,
            ),
    {
        memory.bind_image(image)
    }

    /// The buffer named `id`, sized and targeted as `desc` asks, and the
    /// calls that give it its empty storage.
    pub fn create_buffer(&self, id: u32, desc: BufferDescriptor) -> (made: (OpenGlBuffer, Vec<GlCall>))
        ensures
            made.0 == (OpenGlBuffer {
                id,
                target: crate::buffer::buffer_target(desc.usage),
                usage: glenum::STATIC_DRAW,
                size: desc.size,
            }),
            made.1@ == seq![
                made.0.bind_call(),
                GlCall::BufferData { target: made.0.target, size: desc.size, usage: glenum::STATIC_DRAW },
            ],
    {
        OpenGlBuffer::new(id, desc)
    }

    /// The image named `id`.
    pub fn create_image(&self, id: u32, kind: ImageKind) -> (image: OpenGlImage)
        ensures
            image == (OpenGlImage { id, kind }),
    {
        OpenGlImage::new(id, kind)
    }

    /// Builds the pipeline that `desc` describes from what the context
    /// reported: built exactly where [`buildable`] holds, and then as
    /// [`built`] says; refused otherwise, with the error that
    /// [`refusal`] gives.
    pub fn create_pipeline(&self, desc: PipelineDescriptor, report: DriverReport) -> (res: Result<
        OpenGlPipeline,
        PipelineError,
    >)
        ensures
            buildable(desc, report) ==> res is Ok && res->Ok_0@ == built(desc, report),
            !buildable(desc, report) ==> res is Err && res->Err_0 == refusal(desc, report),
    {
        OpenGlPipeline::new(desc, report)
    }

    /// An empty command buffer.
    pub fn create_cmd_buffer(&self) -> (buffer: OpenGlCommandBuffer)
        ensures
            buffer@ == Seq::<CommandView>::empty(),
    {
        OpenGlCommandBuffer::new()
    }

    /// A descriptor set for `desc`. The handle carries nothing, whatever the
    /// layout: what is bound to the set is kept by the context.
    pub fn allocate_descriptor_set(&self, desc: &OpenGlDescriptorSetLayout) -> (set:
        OpenGlDescriptorSet)
        ensures
            set == (OpenGlDescriptorSet {  }),
    {
        OpenGlDescriptorSet {  }
    }

    /// Replays `cmd` and returns the calls to make, in order; the buffer is
    /// used up.
    pub fn execute(&self, cmd: OpenGlCommandBuffer) -> (res: Result<Vec<GlCall>, ExecuteError>)
        ensures
            match replay(cmd@) {
                Ok(done) => res is Ok && res->Ok_0@ == done.calls,
                Err(e) => res == Err::<Vec<GlCall>, ExecuteError>(e),
            },
    {
        cmd.execute()
    }

    /// The module for the shader `id` that the context compiled from `desc`;
    /// fails with the info log exactly when the compile status is zero.
    pub fn create_shader_mod(
        &self,
        desc: &ShaderModDescriptor,
        id: u32,
        status: i32,
        info_log: String,
    ) -> (res: Result<OpenGlShaderMod, String>)
        ensures
            status == 0 ==> res == Err::<OpenGlShaderMod, String>(info_log),
            status != 0 ==> res == Ok::<OpenGlShaderMod, String>(
                OpenGlShaderMod { id, kind: stage_kind(desc.stype) },
            ),
    {
        OpenGlShaderMod::new(desc, id, status, info_log)
    }

    /// The descriptor-set layout that `bindings` describe.
    pub fn create_descriptor_set_layout(&self, bindings: &[DescriptorSetLayoutBinding]) -> (layout:
        OpenGlDescriptorSetLayout)
        ensures
            layout@ == bindings_map(bindings@),
    {
        OpenGlDescriptorSetLayout::new(bindings)
    }

    /// The pipeline layout over `desc_layout` with `hints` attached; fails
    /// on the first hint that names a binding point which `desc_layout`
    /// lacks, with the location of that hint.
    pub fn create_pipeline_layout(
        &self,
        desc_layout: &OpenGlDescriptorSetLayout,
        hints: Vec<PipelineLayoutHint>,
    ) -> (res: Result<OpenGlPipelineLayout, LayoutError>)
        ensures
            match first_misfit(desc_layout@, hints@) {
                None => res is Ok && res->Ok_0@ == with_hints(unhinted(desc_layout@), hints@),
                Some(location) => res is Err && res->Err_0 == LayoutError::UnknownLocation(
                    location,
                ),
            },
    {
        OpenGlPipelineLayout::new(desc_layout, hints)
    }

    /// The call that writes a descriptor: the buffer is bound to the binding
    /// point of its target.
    pub fn write_descriptor_set(&self, desc_set_write: DescriptorSetWrite) -> (call: GlCall)
        ensures
            match desc_set_write.descriptor {
                Descriptor::Buffer(buffer) => call == (GlCall::BindBufferBase {
                    target: buffer.target,
                    index: desc_set_write.binding,
                    buffer: buffer.id,
                }),
            },
    {
        match desc_set_write.descriptor {
            Descriptor::Buffer(buffer) => GlCall::BindBufferBase {
                target: buffer.target,
                index: desc_set_write.binding,
                buffer: buffer.id,
            },
        }
    }
}

impl OpenGLRendererApi {
    /// The entry points.
    pub fn new() -> (api: Self) {
        OpenGLRendererApi
    }

    /// The call that sets the viewport to `w` by `h` from the origin.
    pub fn viewport(&self, w: i32, h: i32) -> (call: GlCall)
        ensures
            call == (GlCall::Viewport { x: 0, y: 0, width: w, height: h }),
    {
        GlCall::Viewport { x: 0, y: 0, width: w, height: h }
    }

    /// The call that clears the colour buffer.
    pub fn clear_color(&self) -> (call: GlCall)
        ensures
            call == (GlCall::Clear { mask: glenum::COLOR_BUFFER_BIT }),
    {
        GlCall::Clear { mask: glenum::COLOR_BUFFER_BIT }
    }

    /// The call that sets the colour to clear to, each component given as
    /// the bit pattern of its single-precision value.
    pub fn set_clear_color(&self, r: u32, g: u32, b: u32, a: u32) -> (call: GlCall)
        ensures
            call == (GlCall::ClearColor { red: r, green: g, blue: b, alpha: a }),
    {
        GlCall::ClearColor { red: r, green: g, blue: b, alpha: a }
    }
}

} // verus!
