use std::collections::HashMap;

use rx_engine::api::{
    AttributeDescriptor, BufferDescriptor, DataType, DescriptorSetLayoutBinding, DescriptorType,
    LayoutHint, PipelineDescriptor, PipelineLayoutHint, Primitive, ShaderSet, Usage,
    VertexBufferDescriptor, VertexData,
};
use rx_engine::attribute::PipelineError;
use rx_engine::buffer::OpenGlBuffer;
use rx_engine::command::{OpenGlCommand, OpenGlCommandBuffer, Phase};
use rx_engine::context::GlCall;
use rx_engine::glenum;
use rx_engine::layout::{OpenGlDescriptorSet, OpenGlDescriptorSetLayout, OpenGlPipelineLayout};
use rx_engine::memory::{Kind, MemoryError, OpenGlMemory};
use rx_engine::pipeline::{DriverReport, ExecuteError, OpenGlPipeline};
use rx_engine::shader_mod::OpenGlShaderMod;

fn shaders() -> ShaderSet {
    ShaderSet {
        vertex: OpenGlShaderMod { id: 21, kind: glenum::VERTEX_SHADER },
        fragment: OpenGlShaderMod { id: 22, kind: glenum::FRAGMENT_SHADER },
    }
}

fn uniform_layout() -> OpenGlPipelineLayout {
    let set_layout = OpenGlDescriptorSetLayout::new(&[DescriptorSetLayoutBinding {
        binding: 0,
        desc: DescriptorType::UniformBuffer,
    }]);
    OpenGlPipelineLayout::new(
        &set_layout,
        vec![PipelineLayoutHint { location: 0, hint: LayoutHint::Name("Matricies") }],
    )
    .unwrap()
}

fn report(attributes: Vec<(i32, u32, i32)>) -> DriverReport {
    let mut named_blocks = HashMap::new();
    named_blocks.insert(0, 5);
    DriverReport {
        program_id: 7,
        link_status: 1,
        info_log: String::new(),
        attributes,
        vao_id: 3,
        named_blocks,
    }
}

fn position(binding: u16, location: u32) -> AttributeDescriptor {
    AttributeDescriptor {
        binding,
        location,
        data: VertexData { offset: 0, data_type: DataType::Vec3f32 },
    }
}

fn simple_pipeline(layout: &OpenGlPipelineLayout) -> OpenGlPipeline {
    let mut desc = PipelineDescriptor::new(Primitive::Triangles, shaders(), layout);
    desc.push_vb(VertexBufferDescriptor { binding: 0, stride: 12 });
    desc.push_attr(position(0, 0));
    OpenGlPipeline::new(desc, report(vec![(0, glenum::FLOAT_VEC3, 1)])).unwrap()
}

fn vertex_buffer(id: u32) -> OpenGlBuffer {
    OpenGlBuffer::new(id, BufferDescriptor { size: 1024, usage: Usage::Vertex }).0
}

fn index_buffer(id: u32) -> OpenGlBuffer {
    OpenGlBuffer::new(id, BufferDescriptor { size: 1024, usage: Usage::Index }).0
}

fn prepare_calls() -> Vec<GlCall> {
    vec![
        GlCall::BindVertexArray { vao: 3 },
        GlCall::UseProgram { program: 7 },
        GlCall::Enable { cap: glenum::CULL_FACE },
        GlCall::CullFace { mode: glenum::BACK },
        GlCall::Enable { cap: glenum::DEPTH_TEST },
    ]
}

fn position_setup(buffer: u32) -> Vec<GlCall> {
    vec![
        GlCall::BindBuffer { target: glenum::ARRAY_BUFFER, buffer },
        GlCall::VertexAttribPointer {
            location: 0,
            components: 3,
            scalar: glenum::FLOAT,
            normalized: false,
            stride: 12,
            offset: 0,
        },
        GlCall::EnableVertexAttribArray { location: 0 },
    ]
}

#[test]
fn record_bind_draw_replays_in_order() {
    let layout = uniform_layout();
    let pipeline = simple_pipeline(&layout);
    let vertex = vertex_buffer(11);
    let index = index_buffer(12);

    let mut cmd = OpenGlCommandBuffer::new();
    cmd.prepare_pipeline(&pipeline);
    cmd.bind_vertex_buffer(0, &vertex);
    cmd.bind_index_buffer(&index);
    cmd.draw_indexed(36, 0, 1);

    let mut expected = prepare_calls();
    expected.extend(position_setup(11));
    expected.push(GlCall::BindBuffer { target: glenum::ELEMENT_ARRAY_BUFFER, buffer: 12 });
    expected.push(GlCall::DrawElements {
        mode: glenum::TRIANGLES,
        count: 36,
        index_type: glenum::UNSIGNED_INT,
        offset: 0,
    });
    assert_eq!(cmd.execute(), Ok(expected));
}

#[test]
fn same_vertex_bind_twice_sets_up_once() {
    let layout = uniform_layout();
    let pipeline = simple_pipeline(&layout);
    let vertex = vertex_buffer(11);

    let mut cmd = OpenGlCommandBuffer::new();
    cmd.prepare_pipeline(&pipeline);
    cmd.bind_vertex_buffer(0, &vertex);
    cmd.bind_vertex_buffer(0, &vertex);

    let calls = cmd.execute().unwrap();
    let binds = calls.iter().filter(|c| matches!(c, GlCall::BindBuffer { .. })).count();
    let pointers = calls.iter().filter(|c| matches!(c, GlCall::VertexAttribPointer { .. })).count();
    let enables =
        calls.iter().filter(|c| matches!(c, GlCall::EnableVertexAttribArray { .. })).count();
    assert_eq!(binds, 1);
    assert_eq!(pointers, 1);
    assert_eq!(enables, 1);

    let mut expected = prepare_calls();
    expected.extend(position_setup(11));
    assert_eq!(calls, expected);
}

#[test]
fn attribute_on_undeclared_binding_names_it() {
    let layout = uniform_layout();
    let mut desc = PipelineDescriptor::new(Primitive::Triangles, shaders(), &layout);
    desc.push_vb(VertexBufferDescriptor { binding: 0, stride: 12 });
    desc.push_vb(VertexBufferDescriptor { binding: 1, stride: 64 });
    desc.push_attr(position(2, 0));
    let res = OpenGlPipeline::new(desc, report(vec![(0, glenum::FLOAT_VEC3, 1)]));
    assert_eq!(res.err(), Some(PipelineError::BindingNotFound(2)));
}

#[test]
fn draw_of_many_instances_records_instanced_draw() {
    let mut cmd = OpenGlCommandBuffer::new();
    cmd.draw_indexed(100, 4, 50);
    let cmds = cmd.commands();
    assert_eq!(cmds.len(), 1);
    let instanced = cmds
        .iter()
        .filter(|c| matches!(c, OpenGlCommand::DrawIndexedInstanced(100, 4, 50)))
        .count();
    let plain = cmds.iter().filter(|c| matches!(c, OpenGlCommand::DrawIndexed(..))).count();
    assert_eq!(instanced, 1);
    assert_eq!(plain, 0);
}

#[test]
fn mapping_unbound_memory_fails() {
    let memory = OpenGlMemory::allocate(1024);
    assert_eq!(memory.map_memory(), Err(MemoryError::Unbound));
    assert_eq!(memory.unmap_memory(), Err(MemoryError::Unbound));
    assert_eq!(memory.flush_memory(), Err(MemoryError::Unbound));
}

#[test]
fn draw_dispatch_at_the_boundary() {
    let mut cmd = OpenGlCommandBuffer::new();
    cmd.draw_indexed(6, 0, 0);
    cmd.draw_indexed(6, 8, 1);
    cmd.draw_indexed(6, 16, 2);
    cmd.draw_indexed(u32::MAX, u32::MAX, u32::MAX);
    let cmds = cmd.commands();
    assert!(matches!(cmds[0], OpenGlCommand::DrawIndexed(6, 0)));
    assert!(matches!(cmds[1], OpenGlCommand::DrawIndexed(6, 8)));
    assert!(matches!(cmds[2], OpenGlCommand::DrawIndexedInstanced(6, 16, 2)));
    assert!(matches!(
        cmds[3],
        OpenGlCommand::DrawIndexedInstanced(u32::MAX, u32::MAX, u32::MAX)
    ));
}

#[test]
fn instanced_draw_replays_as_instanced_call() {
    let layout = uniform_layout();
    let pipeline = simple_pipeline(&layout);
    let mut cmd = OpenGlCommandBuffer::new();
    cmd.prepare_pipeline(&pipeline);
    cmd.draw_indexed(100, 4, 50);
    let calls = cmd.execute().unwrap();
    assert_eq!(
        calls[5],
        GlCall::DrawElementsInstanced {
            mode: glenum::TRIANGLES,
            count: 100,
            index_type: glenum::UNSIGNED_INT,
            offset: 4,
            instances: 50,
        }
    );
    assert_eq!(calls.len(), 6);
}

#[test]
fn recorded_order_is_replayed_order() {
    let layout = uniform_layout();
    let pipeline = simple_pipeline(&layout);
    let index = index_buffer(12);

    let mut cmd = OpenGlCommandBuffer::new();
    cmd.clear_screen((0.5f32.to_bits(), 0.5f32.to_bits(), 0.5f32.to_bits(), 1.0f32.to_bits()));
    cmd.prepare_pipeline(&pipeline);
    cmd.draw_indexed(3, 0, 1);
    cmd.bind_index_buffer(&index);
    cmd.draw_indexed(6, 12, 1);
    cmd.clear_screen((0, 0, 0, 0));

    let mut expected = vec![
        GlCall::ClearColor { red: 0x3F00_0000, green: 0x3F00_0000, blue: 0x3F00_0000, alpha: 0x3F80_0000 },
        GlCall::Clear { mask: 0x4100 },
    ];
    expected.extend(prepare_calls());
    expected.push(GlCall::DrawElements {
        mode: glenum::TRIANGLES,
        count: 3,
        index_type: glenum::UNSIGNED_INT,
        offset: 0,
    });
    expected.push(GlCall::BindBuffer { target: glenum::ELEMENT_ARRAY_BUFFER, buffer: 12 });
    expected.push(GlCall::DrawElements {
        mode: glenum::TRIANGLES,
        count: 6,
        index_type: glenum::UNSIGNED_INT,
        offset: 12,
    });
    expected.push(GlCall::ClearColor { red: 0, green: 0, blue: 0, alpha: 0 });
    expected.push(GlCall::Clear { mask: 0x4100 });
    assert_eq!(cmd.execute(), Ok(expected));
}

#[test]
fn clear_mask_is_colour_and_depth() {
    assert_eq!(glenum::COLOR_BUFFER_BIT | glenum::DEPTH_BUFFER_BIT, 0x4100);
    let mut cmd = OpenGlCommandBuffer::new();
    cmd.clear_screen((1, 2, 3, 4));
    assert_eq!(
        cmd.execute(),
        Ok(vec![
            GlCall::ClearColor { red: 1, green: 2, blue: 3, alpha: 4 },
            GlCall::Clear { mask: glenum::COLOR_BUFFER_BIT | glenum::DEPTH_BUFFER_BIT },
        ])
    );
}

#[test]
fn empty_buffer_replays_to_nothing() {
    assert_eq!(OpenGlCommandBuffer::new().execute(), Ok(vec![]));
}

#[test]
fn bind_before_pipeline_is_refused() {
    let vertex = vertex_buffer(11);
    let mut cmd = OpenGlCommandBuffer::new();
    cmd.clear_screen((0, 0, 0, 0));
    cmd.bind_vertex_buffer(0, &vertex);
    assert_eq!(cmd.phase(), Phase::NoPipeline);
    assert_eq!(cmd.execute(), Err(ExecuteError::NoPipeline));
}

#[test]
fn draw_before_pipeline_is_refused() {
    let mut plain = OpenGlCommandBuffer::new();
    plain.draw_indexed(3, 0, 1);
    assert_eq!(plain.execute(), Err(ExecuteError::NoPipeline));

    let mut instanced = OpenGlCommandBuffer::new();
    instanced.draw_indexed(3, 0, 2);
    assert_eq!(instanced.execute(), Err(ExecuteError::NoPipeline));

    let mut index = OpenGlCommandBuffer::new();
    index.bind_index_buffer(&index_buffer(1));
    assert_eq!(index.execute(), Err(ExecuteError::NoPipeline));

    let layout = uniform_layout();
    let mut descriptors = OpenGlCommandBuffer::new();
    descriptors.bind_descriptor_set(&layout, &OpenGlDescriptorSet {});
    assert_eq!(descriptors.execute(), Err(ExecuteError::NoPipeline));
}

#[test]
fn phase_follows_prepare() {
    let layout = uniform_layout();
    let pipeline = simple_pipeline(&layout);
    let mut cmd = OpenGlCommandBuffer::new();
    assert_eq!(cmd.phase(), Phase::NoPipeline);
    cmd.clear_screen((0, 0, 0, 0));
    assert_eq!(cmd.phase(), Phase::NoPipeline);
    cmd.prepare_pipeline(&pipeline);
    assert_eq!(cmd.phase(), Phase::PipelineActive);
    cmd.draw_indexed(3, 0, 1);
    assert_eq!(cmd.phase(), Phase::PipelineActive);
}

#[test]
fn bind_to_unknown_binding_is_refused_and_gives_no_calls() {
    let layout = uniform_layout();
    let pipeline = simple_pipeline(&layout);
    let vertex = vertex_buffer(11);
    let mut cmd = OpenGlCommandBuffer::new();
    cmd.prepare_pipeline(&pipeline);
    cmd.bind_vertex_buffer(0, &vertex);
    cmd.bind_vertex_buffer(4, &vertex);
    assert_eq!(cmd.execute(), Err(ExecuteError::UnknownBinding(4)));
}

#[test]
fn descriptor_set_binds_each_block() {
    let layout = uniform_layout();
    let pipeline = simple_pipeline(&layout);
    let mut cmd = OpenGlCommandBuffer::new();
    cmd.prepare_pipeline(&pipeline);
    cmd.bind_descriptor_set(&layout, &OpenGlDescriptorSet {});
    assert!(matches!(&cmd.commands()[1], OpenGlCommand::BindDescriptorSet(b) if b == &vec![0]));
    let calls = cmd.execute().unwrap();
    assert_eq!(calls[5], GlCall::UniformBlockBinding { program: 7, block: 5, binding: 0 });
    assert_eq!(calls.len(), 6);
}

#[test]
fn descriptor_of_another_layout_is_unresolved() {
    let layout = uniform_layout();
    let pipeline = simple_pipeline(&layout);
    let other_set = OpenGlDescriptorSetLayout::new(&[DescriptorSetLayoutBinding {
        binding: 9,
        desc: DescriptorType::Sampler,
    }]);
    let other = OpenGlPipelineLayout::new(&other_set, vec![]).unwrap();
    let mut cmd = OpenGlCommandBuffer::new();
    cmd.prepare_pipeline(&pipeline);
    cmd.bind_descriptor_set(&other, &OpenGlDescriptorSet {});
    assert_eq!(cmd.execute(), Err(ExecuteError::UnresolvedDescriptor(9)));
}

#[test]
fn second_pipeline_takes_over_binds() {
    let layout = uniform_layout();
    let first = simple_pipeline(&layout);
    let mut desc = PipelineDescriptor::new(Primitive::TrianglesStrip, shaders(), &layout);
    desc.push_vb(VertexBufferDescriptor { binding: 0, stride: 12 });
    desc.push_attr(position(0, 0));
    let mut second_report = report(vec![(0, glenum::FLOAT_VEC3, 1)]);
    second_report.program_id = 8;
    second_report.vao_id = 4;
    let second = OpenGlPipeline::new(desc, second_report).unwrap();
    let vertex = vertex_buffer(11);

    let mut cmd = OpenGlCommandBuffer::new();
    cmd.prepare_pipeline(&first);
    cmd.bind_vertex_buffer(0, &vertex);
    cmd.prepare_pipeline(&second);
    cmd.bind_vertex_buffer(0, &vertex);
    cmd.draw_indexed(3, 0, 1);
    let calls = cmd.execute().unwrap();
    let binds = calls.iter().filter(|c| matches!(c, GlCall::BindBuffer { .. })).count();
    assert_eq!(binds, 2);
    assert_eq!(
        calls.last(),
        Some(&GlCall::DrawElements {
            mode: glenum::TRIANGLE_STRIP,
            count: 3,
            index_type: glenum::UNSIGNED_INT,
            offset: 0,
        })
    );
}

#[test]
fn command_keeps_its_own_copy_of_the_pipeline() {
    let layout = uniform_layout();
    let mut pipeline = simple_pipeline(&layout);
    let vertex = vertex_buffer(11);
    let mut cmd = OpenGlCommandBuffer::new();
    cmd.prepare_pipeline(&pipeline);
    cmd.bind_vertex_buffer(0, &vertex);
    // A bind on the pipeline itself does not reach the copy that was recorded.
    assert_eq!(pipeline.bind_buffer(0, &vertex).unwrap(), position_setup(11));
    let calls = cmd.execute().unwrap();
    assert_eq!(calls.len(), 8);
    assert_eq!(pipeline.bound_buffer(0), Some(11));
}

#[test]
fn memory_binds_once() {
    let buffer = vertex_buffer(11);
    let other = vertex_buffer(12);
    let mut memory = OpenGlMemory::allocate(64);
    assert_eq!(memory.capacity(), 64);
    assert_eq!(memory.kind(), Kind::Unbinded(false));
    assert_eq!(memory.bind_buffer(&buffer), Ok(()));
    assert_eq!(memory.kind(), Kind::Buffer(buffer));
    assert_eq!(memory.bind_buffer(&other), Err(MemoryError::AlreadyBound));
    assert_eq!(memory.kind(), Kind::Buffer(buffer));
    assert_eq!(
        memory.map_memory(),
        Ok(vec![
            GlCall::BindBuffer { target: glenum::ARRAY_BUFFER, buffer: 11 },
            GlCall::MapBuffer { target: glenum::ARRAY_BUFFER, access: glenum::READ_WRITE },
        ])
    );
    assert_eq!(memory.flush_memory(), Ok(vec![]));
    assert_eq!(
        memory.unmap_memory(),
        Ok(vec![GlCall::UnmapBuffer { target: glenum::ARRAY_BUFFER }])
    );
}

#[test]
fn descriptor_set_carries_binding_points_in_ascending_order() {
    let set_layout = OpenGlDescriptorSetLayout::new(&[
        DescriptorSetLayoutBinding { binding: 8, desc: DescriptorType::UniformBuffer },
        DescriptorSetLayoutBinding { binding: 2, desc: DescriptorType::UniformBuffer },
        DescriptorSetLayoutBinding { binding: 5, desc: DescriptorType::UniformBuffer },
    ]);
    let layout = OpenGlPipelineLayout::new(&set_layout, vec![]).unwrap();
    let mut desc = PipelineDescriptor::new(Primitive::Triangles, shaders(), &layout);
    desc.push_vb(VertexBufferDescriptor { binding: 0, stride: 12 });
    desc.push_attr(position(0, 0));
    let pipeline = OpenGlPipeline::new(desc, report(vec![(0, glenum::FLOAT_VEC3, 1)])).unwrap();

    let mut cmd = OpenGlCommandBuffer::new();
    cmd.prepare_pipeline(&pipeline);
    cmd.bind_descriptor_set(&layout, &OpenGlDescriptorSet {});
    assert!(matches!(&cmd.commands()[1], OpenGlCommand::BindDescriptorSet(b) if b == &vec![2, 5, 8]));
    let calls = cmd.execute().unwrap();
    assert_eq!(
        calls[5..],
        [
            GlCall::UniformBlockBinding { program: 7, block: 2, binding: 2 },
            GlCall::UniformBlockBinding { program: 7, block: 5, binding: 5 },
            GlCall::UniformBlockBinding { program: 7, block: 8, binding: 8 },
        ]
    );
}
