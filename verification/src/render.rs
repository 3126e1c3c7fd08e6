//! What the renderer decides each frame: the commands it records, how many
//! instances it draws, and where each instance's transform goes in the
//! instance buffer.

use vstd::prelude::*;
use crate::api::{
    AttributeDescriptor, DataType, Event, PipelineDescriptor, Primitive, ShaderSet,
    VertexBufferDescriptor, VertexData,
};
use crate::context::GlCall;
use crate::buffer::OpenGlBuffer;
use crate::command::{replay, replay_from, Color, CommandView, OpenGlCommandBuffer};
use crate::layout::{
    ascending_list, lemma_ascending_list_of, OpenGlDescriptorSet, OpenGlPipelineLayout,
};
use crate::pipeline::{block_indices, buildable, built, DriverReport, OpenGlPipeline, PipelineView};
use crate::vertex_layout::{layout_of, reads_from};

verus! {

/// Size in bytes of one transform: a matrix of four by four floats.
pub const MATRIX_BYTES: usize = 64;

/// Size in bytes of one mesh vertex: position, texture coordinate, normal.
pub const VERTEX_BYTES: usize = 32;

/// Size in bytes of the vertex, index and uniform buffers.
pub const MESH_BUFFER_BYTES: u32 = 1024;

/// Size in bytes of the instance buffer: room for 30000 transforms.
pub const INSTANCE_BUFFER_BYTES: u32 = 1_920_000;

/// Byte offset of the projection matrix in the uniform buffer. The view
/// matrix lies at its start.
pub const PROJECTION_OFFSET: usize = 64;

/// The colour a frame is cleared to: opaque mid-grey.
pub open spec fn clear_grey() -> Color {
    (0x3F00_0000, 0x3F00_0000, 0x3F00_0000, 0x3F80_0000)
}

/// Number of instances drawn in a frame in which `drained` draws were
/// submitted: one for each, cut to 32 bits, and one where none was.
pub open spec fn instance_count(drained: usize) -> u32 {
    if drained == 0 {
        1
    } else {
        drained as u32
    }
}

/// The commands of one frame: clear, prepare the pipeline, attach its
/// descriptor bindings, bind the mesh to binding 0 and the instance
/// transforms to binding 1, bind the indices, and draw.
pub open spec fn frame_commands(
    pipeline: PipelineView,
    bindings: Seq<u32>,
    vertex: OpenGlBuffer,
    instanced: OpenGlBuffer,
    index: OpenGlBuffer,
    index_count: usize,
    drained: usize,
) -> Seq<CommandView> {
    seq![
        CommandView::ClearScreen(clear_grey()),
        CommandView::PreparePipeline(pipeline),
        CommandView::BindDescriptorSet(bindings),
        CommandView::BindVertexBuffer(0, vertex),
        CommandView::BindVertexBuffer(1, instanced),
        CommandView::BindIndexBuffer(index),
        if instance_count(drained) > 1 {
            CommandView::DrawIndexedInstanced(index_count as u32, 0, instance_count(drained))
        } else {
            CommandView::DrawIndexed(index_count as u32, 0)
        },
    ]
}

/// Computes [`instance_count`].
pub fn frame_instances(drained: usize) -> (count: u32)
    ensures
        count == instance_count(drained),
{
    if drained == 0 {
        1
    } else {
        #[verifier::truncate]
        (drained as u32)
    }
}

/// A submitted draw: the numbers of its vertex array and of its material, and
/// its transform.
pub type DrawIndexed<T> = (u32, u32, T);

/// Number of transforms that an instance buffer of `capacity` bytes holds.
pub open spec fn instance_room(capacity: u32) -> int {
    capacity as int / MATRIX_BYTES as int
}

/// Places the transforms of the submitted draws in an instance buffer of
/// `capacity` bytes: each goes right behind the one before it, in the order
/// the draws were submitted, and the draws that the buffer has no room for
/// are left out. Returns each transform with its byte offset.
pub fn pack_instances<T>(draws: Vec<DrawIndexed<T>>, capacity: u32) -> (placed: Vec<(usize, T)>)
    ensures
        placed.len() == if draws.len() <= instance_room(capacity) {
            draws.len() as int
        } else {
            instance_room(capacity)
        },
        forall|i: int|
            0 <= i < placed.len() ==> (#[trigger] placed[i]).0 == i * MATRIX_BYTES && placed[i].1
                == draws[i].2,
{
    let room: usize = (capacity / 64) as usize;
    let mut placed: Vec<(usize, T)> = Vec::new();
    for draw in it: draws
        invariant
            room == instance_room(capacity),
            it.seq() == draws@,
            placed.len() == if it.index() <= room {
                it.index() as int
            } else {
                room as int
            },
            forall|i: int|
                0 <= i < placed.len() ==> (#[trigger] placed[i]).0 == i * MATRIX_BYTES
                    && placed[i].1 == draws[i].2,
    {
        if placed.len() < room {
            let offset: usize = placed.len() * MATRIX_BYTES;
            placed.push((offset, draw.2));
        }
    }
    placed
}

/// Records the commands of one frame in which `drained` draws were
/// submitted. The descriptor bindings are those of `pipeline_layout`, in
/// ascending order.
pub fn record_frame(
    pipeline: &OpenGlPipeline,
    pipeline_layout: &OpenGlPipelineLayout,
    desc_set: &OpenGlDescriptorSet,
    vertex: &OpenGlBuffer,
    instanced: &OpenGlBuffer,
    index: &OpenGlBuffer,
    index_count: usize,
    drained: usize,
) -> (buffer: OpenGlCommandBuffer)
    ensures
        buffer@ == frame_commands(
            pipeline@,
            ascending_list(pipeline_layout@.dom()),
            *vertex,
            *instanced,
            *index,
            index_count,
            drained,
        ),
{
    let mut buffer = OpenGlCommandBuffer::new();
    buffer.clear_screen((0x3F00_0000, 0x3F00_0000, 0x3F00_0000, 0x3F80_0000));
    buffer.prepare_pipeline(pipeline);
    buffer.bind_descriptor_set(pipeline_layout, desc_set);
    buffer.bind_vertex_buffer(0, vertex);
    buffer.bind_vertex_buffer(1, instanced);
    buffer.bind_index_buffer(index);
    buffer.draw_indexed(
        #[verifier::truncate]
        (index_count as u32),
        0,
        frame_instances(drained),
    );
    proof {
        assert(buffer@ =~= frame_commands(
            pipeline@,
            ascending_list(pipeline_layout@.dom()),
            *vertex,
            *instanced,
            *index,
            index_count,
            drained,
        ));
    }
    buffer
}

/// The vertex buffers of the mesh pipeline: the mesh at binding 0, one
/// transform per instance at binding 1.
pub open spec fn mesh_buffers() -> Seq<VertexBufferDescriptor> {
    seq![
        VertexBufferDescriptor { binding: 0, stride: VERTEX_BYTES },
        VertexBufferDescriptor { binding: 1, stride: MATRIX_BYTES },
    ]
}

/// The attributes of the mesh pipeline: position, texture coordinate and
/// normal from the mesh, and the transform from the instance buffer.
pub open spec fn mesh_attributes() -> Seq<AttributeDescriptor> {
    seq![
        AttributeDescriptor {
            binding: 0,
            location: 0,
            data: VertexData { offset: 0, data_type: DataType::Vec3f32 },
        },
        AttributeDescriptor {
            binding: 0,
            location: 1,
            data: VertexData { offset: 12, data_type: DataType::Vec2f32 },
        },
        AttributeDescriptor {
            binding: 0,
            location: 2,
            data: VertexData { offset: 20, data_type: DataType::Vec3f32 },
        },
        AttributeDescriptor {
            binding: 1,
            location: 3,
            data: VertexData { offset: 0, data_type: DataType::Mat4f32 },
        },
    ]
}

/// The descriptor of the pipeline that draws instanced meshes as triangles.
pub fn mesh_pipeline<'a>(shader_set: ShaderSet, layout: &'a OpenGlPipelineLayout) -> (desc:
    PipelineDescriptor<'a>)
    ensures
        desc.primitives == Primitive::Triangles,
        desc.shader_set == shader_set,
        desc.layout == layout,
        desc.vertex_buffers@ == mesh_buffers(),
        desc.vertex_attributes@ == mesh_attributes(),
{
    let mut desc = PipelineDescriptor::new(Primitive::Triangles, shader_set, layout);
    desc.push_vb(VertexBufferDescriptor { binding: 0, stride: VERTEX_BYTES });
    desc.push_vb(VertexBufferDescriptor { binding: 1, stride: MATRIX_BYTES });
    desc.push_attr(
        AttributeDescriptor {
            binding: 0,
            location: 0,
            data: VertexData { offset: 0, data_type: DataType::Vec3f32 },
        },
    );
    desc.push_attr(
        AttributeDescriptor {
            binding: 0,
            location: 1,
            data: VertexData { offset: 12, data_type: DataType::Vec2f32 },
        },
    );
    desc.push_attr(
        AttributeDescriptor {
            binding: 0,
            location: 2,
            data: VertexData { offset: 20, data_type: DataType::Vec3f32 },
        },
    );
    desc.push_attr(
        AttributeDescriptor {
            binding: 1,
            location: 3,
            data: VertexData { offset: 0, data_type: DataType::Mat4f32 },
        },
    );
    proof {
        assert(desc.vertex_buffers@ =~= mesh_buffers());
        assert(desc.vertex_attributes@ =~= mesh_attributes());
    }
    desc
}

/// Where the pipeline has a uniform block for each of `bindings`, none of
/// them is unresolved.
pub proof fn lemma_all_resolved(pipeline: PipelineView, bindings: Seq<u32>)
    requires
        forall|i: int| 0 <= i < bindings.len() ==> pipeline.ubo_index.contains_key(#[trigger] bindings[i]),
    ensures
        pipeline.unresolved(bindings) is None,
    decreases bindings.len(),
{
    if bindings.len() > 0 {
        assert forall|i: int| 0 <= i < bindings.drop_last().len() implies pipeline.ubo_index.contains_key(
            #[trigger] bindings.drop_last()[i],
        ) by {
            assert(bindings.drop_last()[i] == bindings[i]);
        }
        lemma_all_resolved(pipeline, bindings.drop_last());
        assert(bindings.last() == bindings[bindings.len() - 1]);
    }
}

/// The commands of a frame are never refused, given a pipeline whose vertex
/// layout has the bindings 0 and 1 and which has a uniform block for each of
/// the descriptor bindings.
pub proof fn lemma_frame_replays(
    pipeline: PipelineView,
    bindings: Seq<u32>,
    vertex: OpenGlBuffer,
    instanced: OpenGlBuffer,
    index: OpenGlBuffer,
    index_count: usize,
    drained: usize,
)
    requires
        pipeline.layout.contains_key(0),
        pipeline.layout.contains_key(1),
        forall|i: int| 0 <= i < bindings.len() ==> pipeline.ubo_index.contains_key(#[trigger] bindings[i]),
    ensures
        replay(frame_commands(pipeline, bindings, vertex, instanced, index, index_count, drained))
            is Ok,
{
    let cmds = frame_commands(pipeline, bindings, vertex, instanced, index, index_count, drained);
    lemma_all_resolved(pipeline, bindings);
    assert(cmds.take(0) =~= Seq::<CommandView>::empty());
    assert(cmds.take(1).drop_last() =~= cmds.take(0));
    assert(cmds.take(2).drop_last() =~= cmds.take(1));
    assert(cmds.take(3).drop_last() =~= cmds.take(2));
    assert(cmds.take(4).drop_last() =~= cmds.take(3));
    assert(cmds.take(5).drop_last() =~= cmds.take(4));
    assert(cmds.take(6).drop_last() =~= cmds.take(5));
    assert(cmds.take(7).drop_last() =~= cmds.take(6));
    assert(cmds.take(7) =~= cmds);
    assert(replay_from(None, cmds.take(0)) is Ok);
    assert(replay_from(None, cmds.take(1)) is Ok);
    let prepared = replay_from(None, cmds.take(2));
    assert(prepared is Ok && prepared->Ok_0.active == Some(pipeline));
    let described = replay_from(None, cmds.take(3));
    assert(described is Ok && described->Ok_0.active == Some(pipeline));
    let mesh = replay_from(None, cmds.take(4));
    assert(mesh is Ok && mesh->Ok_0.active == Some(pipeline.with_vertex(0, vertex)));
    let instances = replay_from(None, cmds.take(5));
    assert(instances is Ok && instances->Ok_0.active is Some);
    assert(replay_from(None, cmds.take(6)) is Ok);
    assert(replay_from(None, cmds.take(7)) is Ok);
}

/// The pipeline that is built from the mesh descriptor has the vertex
/// bindings of the mesh and of the instances, and a uniform block for every
/// binding point of its layout: the frames recorded with it are never
/// refused.
pub proof fn lemma_mesh_pipeline_draws(
    desc: PipelineDescriptor,
    report: DriverReport,
    vertex: OpenGlBuffer,
    instanced: OpenGlBuffer,
    index: OpenGlBuffer,
    index_count: usize,
    drained: usize,
)
    requires
        desc.vertex_buffers@ == mesh_buffers(),
        desc.vertex_attributes@ == mesh_attributes(),
        buildable(desc, report),
    ensures
        replay(
            frame_commands(
                built(desc, report),
                ascending_list(desc.layout@.dom()),
                vertex,
                instanced,
                index,
                index_count,
                drained,
            ),
        ) is Ok,
{
    let pipeline = built(desc, report);
    let bindings = ascending_list(desc.layout@.dom());
    assert(mesh_attributes()[0].binding == 0);
    assert(mesh_attributes()[3].binding == 1);
    assert(reads_from(mesh_attributes(), 0));
    assert(reads_from(mesh_attributes(), 1));
    assert(layout_of(mesh_buffers(), mesh_attributes()).contains_key(0));
    assert(layout_of(mesh_buffers(), mesh_attributes()).contains_key(1));
    desc.layout.lemma_finite();
    lemma_ascending_list_of(desc.layout@.dom());
    assert forall|i: int| 0 <= i < bindings.len() implies pipeline.ubo_index.contains_key(
        #[trigger] bindings[i],
    ) by {
        assert(bindings.to_set().contains(bindings[i]));
        assert(block_indices(desc.layout@, report.named_blocks@).contains_key(bindings[i]));
    }
    lemma_frame_replays(pipeline, bindings, vertex, instanced, index, index_count, drained);
}

/// One vertex of a mesh: position, texture coordinate and normal.
#[derive(Debug, Clone, Copy, PartialEq)]
pub struct Vertex<T> {
    pub position: [T; 3],
    pub uv: [T; 2],
    pub normal: [T; 3],
}

/// The vertex number `k` of a mesh given by `positions` and `normals` with
/// three components to a vertex each, with `zero` for both texture
/// coordinates.
pub open spec fn vertex_at<T>(positions: Seq<T>, normals: Seq<T>, zero: T, k: int) -> (Seq<T>, Seq<T>, Seq<T>) {
    (
        seq![positions[3 * k], positions[3 * k + 1], positions[3 * k + 2]],
        seq![zero, zero],
        seq![normals[3 * k], normals[3 * k + 1], normals[3 * k + 2]],
    )
}

impl<T: Copy> Vertex<T> {
    /// The vertices of a mesh given by `positions` and `normals`, three
    /// components to a vertex each: one vertex for every three whole
    /// components, with `zero` for the texture coordinates. `None` where
    /// there are not as many normals as positions.
    pub fn from_pos_norm(positions: &Vec<T>, normals: &Vec<T>, zero: T) -> (res: Option<
        Vec<Vertex<T>>,
    >)
        ensures
            positions.len() != normals.len() ==> res is None,
            positions.len() == normals.len() ==> res is Some && res->Some_0.len() == positions.len()
                / 3 && forall|k: int|
                0 <= k < res->Some_0.len() ==> ((#[trigger] res->Some_0[k]).position@, res->Some_0[k].uv@, res->Some_0[k].normal@)
                    == vertex_at(positions@, normals@, zero, k),
    {
        if positions.len() != normals.len() {
            return None;
        }
        let count: usize = positions.len() / 3;
        let mut vertices: Vec<Vertex<T>> = Vec::new();
        let mut k: usize = 0;
        while k < count
            invariant
                k <= count,
                count == positions.len() / 3,
                positions.len() == normals.len(),
                vertices.len() == k,
                forall|j: int|
                    0 <= j < k ==> ((#[trigger] vertices[j]).position@, vertices[j].uv@, vertices[j].normal@)
                        == vertex_at(positions@, normals@, zero, j),
            decreases count - k,
        {
            let base: usize = 3 * k;
            let vertex = Vertex {
                position: [positions[base], positions[base + 1], positions[base + 2]],
                uv: [zero, zero],
                normal: [normals[base], normals[base + 1], normals[base + 2]],
            };
            proof {
                assert(vertex.position@ =~= vertex_at(positions@, normals@, zero, k as int).0);
                assert(vertex.uv@ =~= vertex_at(positions@, normals@, zero, k as int).1);
                assert(vertex.normal@ =~= vertex_at(positions@, normals@, zero, k as int).2);
            }
            vertices.push(vertex);
            k += 1;
        }
        Some(vertices)
    }
}

/// The viewport calls that `events` ask for, in their order: one for each
/// resize.
pub open spec fn resize_calls(events: Seq<Event>) -> Seq<GlCall>
    decreases events.len(),
{
    if events.len() == 0 {
        Seq::empty()
    } else {
        match events.last() {
            Event::Resize(w, h) => resize_calls(events.drop_last()).push(
                GlCall::Viewport { x: 0, y: 0, width: w, height: h },
            ),
            _ => resize_calls(events.drop_last()),
        }
    }
}

/// Computes [`resize_calls`].
pub fn viewport_calls(events: &Vec<Event>) -> (calls: Vec<GlCall>)
    ensures
        calls@ == resize_calls(events@),
{
    let mut calls: Vec<GlCall> = Vec::new();
    let mut i: usize = 0;
    while i < events.len()
        invariant
            i <= events.len(),
            calls@ == resize_calls(events@.take(i as int)),
        decreases events.len() - i,
    {
        proof {
            assert(events@.take(i + 1).drop_last() =~= events@.take(i as int));
        }
        if let Event::Resize(w, h) = &events[i] {
            calls.push(GlCall::Viewport { x: 0, y: 0, width: *w, height: *h });
        }
        i += 1;
    }
    proof {
        assert(events@.take(events.len() as int) =~= events@);
    }
    calls
}

} // verus!
