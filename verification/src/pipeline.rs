//! The pipeline: a linked program together with a vertex layout, and the
//! caches that spare the context a bind it has seen already.

use std::collections::HashMap;
use vstd::prelude::*;
use crate::api::{LayoutHint, PipelineDescriptor, PipelineLayoutHint, Primitive, ShaderSet};
use crate::attribute::{
    attribute_pointers, attributes_calls, first_fault, in_range, lemma_faultless_in_range,
    validate_attrs, ActiveAttribute, PipelineError,
};
use crate::buffer::OpenGlBuffer;
use crate::context::GlCall;
use crate::glenum;
use crate::layout::{ascending, ascending_list, LayoutEntry, OpenGlPipelineLayout};
use crate::shader_mod::validate_program;
use crate::vertex_layout::{
    build_layout, first_unbound, layout_of, lemma_first_unbound, reads_from, undeclared,
    BindingLayout, LayoutView, VertexLayout,
};

verus! {

/// Why a bind on a pipeline, or the replay of a command buffer, was refused.
#[derive(Debug, Clone, Copy, PartialEq, Eq, Structural)]
pub enum ExecuteError {
    /// A bind or a draw came before any pipeline was prepared.
    NoPipeline,
    /// A vertex buffer was bound to a binding that the vertex layout of the
    /// pipeline lacks.
    UnknownBinding(u32),
    /// A descriptor binding was asked for that the pipeline has resolved no
    /// uniform block for.
    UnresolvedDescriptor(u32),
}

/// The mode that the context draws a primitive topology with. Quads have no
/// mode of their own and are drawn as triangles.
pub open spec fn primitive_mode(primitive: Primitive) -> u32 {
    match primitive {
        Primitive::Triangles => glenum::TRIANGLES,
        Primitive::TrianglesFan => glenum::TRIANGLE_FAN,
        Primitive::TrianglesStrip => glenum::TRIANGLE_STRIP,
        Primitive::Quads => glenum::TRIANGLES,
    }
}

/// Computes [`primitive_mode`].
pub fn to_gl_primitive(primitive: Primitive) -> (mode: u32)
    ensures
        mode == primitive_mode(primitive),
{
    match primitive {
        Primitive::Triangles => glenum::TRIANGLES,
        Primitive::TrianglesFan => glenum::TRIANGLE_FAN,
        Primitive::TrianglesStrip => glenum::TRIANGLE_STRIP,
        Primitive::Quads => glenum::TRIANGLES,
    }
}

/// The calls that link the two shaders of `shader_set` into `program`:
/// attach both, link, detach both.
pub fn create_program(program: u32, shader_set: &ShaderSet) -> (calls: Vec<GlCall>)
    ensures
        calls@ == seq![
            GlCall::AttachShader { program, shader: shader_set.vertex.id },
            GlCall::AttachShader { program, shader: shader_set.fragment.id },
            GlCall::LinkProgram { program },
            GlCall::DetachShader { program, shader: shader_set.vertex.id },
            GlCall::DetachShader { program, shader: shader_set.fragment.id },
        ],
{
    let mut calls: Vec<GlCall> = Vec::new();
    calls.push(GlCall::AttachShader { program, shader: shader_set.vertex.id });
    calls.push(GlCall::AttachShader { program, shader: shader_set.fragment.id });
    calls.push(GlCall::LinkProgram { program });
    calls.push(GlCall::DetachShader { program, shader: shader_set.vertex.id });
    calls.push(GlCall::DetachShader { program, shader: shader_set.fragment.id });
    calls
}

/// The uniform-block index that the binding point `binding` with the layout
/// entry `entry` resolves to. A point hinted by name takes the index that the
/// context reported for it in `named`, or the invalid index where it reported
/// none; a point without a hint takes its own number.
pub open spec fn block_index(entry: LayoutEntry, binding: u32, named: Map<u32, u32>) -> u32 {
    match entry.1 {
        Some(hint) => match hint.hint {
            LayoutHint::Name(_) => if named.contains_key(binding) {
                named[binding]
            } else {
                glenum::INVALID_INDEX
            },
        },
        None => binding,
    }
}

/// Whether `binding` is a binding point of `layout` that resolves to the
/// invalid index.
pub open spec fn block_unresolved(layout: Map<u32, LayoutEntry>, named: Map<u32, u32>, binding: u32) -> bool {
    layout.contains_key(binding) && block_index(layout[binding], binding, named)
        == glenum::INVALID_INDEX
}

/// Whether every binding point of `layout` resolves to a valid index.
pub open spec fn blocks_resolved(layout: Map<u32, LayoutEntry>, named: Map<u32, u32>) -> bool {
    forall|binding: u32| !#[trigger] block_unresolved(layout, named, binding)
}

/// The least binding point of `layout` that resolves to the invalid index.
pub open spec fn least_unresolved(layout: Map<u32, LayoutEntry>, named: Map<u32, u32>) -> u32 {
    choose|binding: u32|
        block_unresolved(layout, named, binding) && forall|other: u32| #[trigger]
            block_unresolved(layout, named, other) ==> binding <= other
}

/// The uniform-block index of each binding point of `layout`.
pub open spec fn block_indices(layout: Map<u32, LayoutEntry>, named: Map<u32, u32>) -> Map<u32, u32> {
    Map::new(
        |binding: u32| layout.contains_key(binding),
        |binding: u32| block_index(layout[binding], binding, named),
    )
}

/// Those of `bindings` that `layout` hints by name, each with its name, in
/// the order of `bindings`.
pub open spec fn names_of(layout: Map<u32, LayoutEntry>, bindings: Seq<u32>) -> Seq<
    (u32, &'static str),
>
    decreases bindings.len(),
{
    if bindings.len() == 0 {
        Seq::empty()
    } else {
        let before = names_of(layout, bindings.drop_last());
        match layout[bindings.last()].1 {
            Some(hint) => match hint.hint {
                LayoutHint::Name(name) => before.push((bindings.last(), name)),
            },
            None => before,
        }
    }
}

/// The binding points of `layout` that are to be looked up by name, each
/// with its name, in ascending order of the binding points. The context is
/// asked for the index of each of these blocks before the pipeline is built.
pub fn named_blocks(layout: &OpenGlPipelineLayout) -> (names: Vec<(u32, &'static str)>)
    ensures
        names@ == names_of(layout@, ascending_list(layout@.dom())),
{
    let keys = layout.bindings();
    let mut names: Vec<(u32, &'static str)> = Vec::new();
    let mut k: usize = 0;
    while k < keys.len()
        invariant
            k <= keys.len(),
            keys@.to_set() == layout@.dom(),
            names@ == names_of(layout@, keys@.take(k as int)),
        decreases keys.len() - k,
    {
        let binding: u32 = keys[k];
        proof {
            assert(keys@.to_set().contains(keys@[k as int]));
            assert(keys@.take(k + 1).drop_last() =~= keys@.take(k as int));
        }
        if let Some(entry) = layout.get(binding) {
            if let Some(hint) = entry.1 {
                match hint.hint {
                    LayoutHint::Name(name) => {
                        names.push((binding, name));
                    },
                }
            }
        }
        k += 1;
    }
    proof {
        assert(keys@.take(keys.len() as int) =~= keys@);
    }
    names
}

/// Resolves each binding point of `layout` to a uniform-block index, where
/// `named` holds the indices that the context reported for the blocks that
/// are looked up by name. Fails when some binding point resolves to the
/// invalid index, naming the least such point.
pub fn ubo_bindings(layout: &OpenGlPipelineLayout, named: &HashMap<u32, u32>) -> (res: Result<
    HashMap<u32, u32>,
    PipelineError,
>)
    ensures
        blocks_resolved(layout@, named@) ==> res is Ok && res->Ok_0@ == block_indices(
            layout@,
            named@,
        ),
        !blocks_resolved(layout@, named@) ==> res is Err && res->Err_0
            == PipelineError::InvalidBlockIndex(least_unresolved(layout@, named@))
            && block_unresolved(layout@, named@, least_unresolved(layout@, named@)),
{
    broadcast use vstd::std_specs::hash::group_hash_axioms;

    let keys = layout.bindings();
    let mut indexes: HashMap<u32, u32> = HashMap::new();
    let mut k: usize = 0;
    while k < keys.len()
        invariant
            k <= keys.len(),
            ascending(keys@),
            keys@.to_set() == layout@.dom(),
            indexes@.dom() == keys@.take(k as int).to_set(),
            forall|binding: u32| #[trigger]
                indexes@.contains_key(binding) ==> indexes@[binding] == block_index(
                    layout@[binding],
                    binding,
                    named@,
                ) && indexes@[binding] != glenum::INVALID_INDEX,
        decreases keys.len() - k,
    {
        let binding: u32 = keys[k];
        proof {
            assert(keys@.to_set().contains(keys@[k as int]));
        }
        let index: u32 = match layout.get(binding) {
            Some(entry) => match entry.1 {
                Some(hint) => match hint.hint {
                    LayoutHint::Name(_) => match named.get(&binding) {
                        Some(index) => *index,
                        None => glenum::INVALID_INDEX,
                    },
                },
                None => binding,
            },
            None => glenum::INVALID_INDEX,
        };
        if index == glenum::INVALID_INDEX {
            proof {
                assert(block_unresolved(layout@, named@, binding));
                assert forall|other: u32| #[trigger]
                    block_unresolved(layout@, named@, other) implies binding <= other by {
                    assert(keys@.to_set().contains(other));
                    let m = choose|m: int| 0 <= m < keys@.len() && keys@[m] == other;
                    if m < k {
                        assert(keys@.take(k as int)[m] == other);
                        assert(keys@.take(k as int).to_set().contains(other));
                        assert(indexes@.contains_key(other));
                    }
                }
                let least = least_unresolved(layout@, named@);
                assert(block_unresolved(layout@, named@, least));
                assert(least == binding);
            }
            return Err(PipelineError::InvalidBlockIndex(binding));
        }
        indexes.insert(binding, index);
        proof {
            assert(keys@.take(k + 1) =~= keys@.take(k as int).push(binding));
            keys@.take(k as int).lemma_push_to_set_commute(binding);
        }
        k += 1;
    }
    proof {
        assert(keys@.take(keys.len() as int) =~= keys@);
        assert forall|binding: u32| !#[trigger] block_unresolved(layout@, named@, binding) by {
            if layout@.contains_key(binding) {
                assert(indexes@.contains_key(binding));
            }
        }
        assert(indexes@ =~= block_indices(layout@, named@));
    }
    Ok(indexes)
}

/// What the context reported while the objects of a pipeline were created:
/// the name of the program and how its link went, the attributes that the
/// linked program has, the name of the vertex array, and the index of each
/// uniform block that was looked up by name, keyed by binding point.
#[derive(Debug)]
pub struct DriverReport {
    pub program_id: u32,
    pub link_status: i32,
    pub info_log: String,
    pub attributes: Vec<ActiveAttribute>,
    pub vao_id: u32,
    pub named_blocks: HashMap<u32, u32>,
}

/// The state of a pipeline as contracts see it.
pub struct PipelineView {
    pub vao_id: u32,
    pub program_id: u32,
    pub primitive: u32,
    /// The vertex layout, by binding.
    pub layout: LayoutView,
    /// The buffer that each binding was set up with, for the bindings that
    /// have been set up.
    pub binding_cache: Map<u32, u32>,
    /// The index buffer that was bound last.
    pub index_buffer_cache: u32,
    /// The uniform-block index of each descriptor binding.
    pub ubo_index: Map<u32, u32>,
}

impl PipelineView {
    /// The calls that make the pipeline the active one: its vertex array and
    /// program, back-face culling and the depth test.
    pub open spec fn prepare_calls(self) -> Seq<GlCall> {
        seq![
            GlCall::BindVertexArray { vao: self.vao_id },
            GlCall::UseProgram { program: self.program_id },
            GlCall::Enable { cap: glenum::CULL_FACE },
            GlCall::CullFace { mode: glenum::BACK },
            GlCall::Enable { cap: glenum::DEPTH_TEST },
        ]
    }

    /// The calls that binding `buffer` as the index buffer takes: one bind,
    /// unless the buffer is the one bound last.
    pub open spec fn index_calls(self, buffer: OpenGlBuffer) -> Seq<GlCall> {
        if self.index_buffer_cache != buffer.id {
            seq![buffer.bind_call()]
        } else {
            Seq::empty()
        }
    }

    /// The pipeline after `buffer` was bound as the index buffer.
    pub open spec fn with_index(self, buffer: OpenGlBuffer) -> PipelineView {
        PipelineView { index_buffer_cache: buffer.id, ..self }
    }

    /// The calls that binding `buffer` to `binding` takes. A binding that was
    /// set up before takes none. Otherwise the buffer is bound and every
    /// attribute that reads from the binding is set up, with the stride of
    /// the vertex buffer declared for the binding.
    pub open spec fn vertex_calls(self, binding: u32, buffer: OpenGlBuffer) -> Seq<GlCall> {
        if self.binding_cache.contains_key(binding) {
            Seq::empty()
        } else {
            seq![buffer.bind_call()] + attributes_calls(
                self.layout[binding].buffer.stride,
                self.layout[binding].attributes,
            )
        }
    }

    /// The pipeline after `buffer` was bound to `binding`: a binding that was
    /// not set up before now is, with this buffer.
    pub open spec fn with_vertex(self, binding: u32, buffer: OpenGlBuffer) -> PipelineView {
        if self.binding_cache.contains_key(binding) {
            self
        } else {
            PipelineView { binding_cache: self.binding_cache.insert(binding, buffer.id), ..self }
        }
    }

    /// The first of `bindings` that the pipeline has no uniform block for.
    pub open spec fn unresolved(self, bindings: Seq<u32>) -> Option<u32>
        decreases bindings.len(),
    {
        if bindings.len() == 0 {
            None
        } else {
            match self.unresolved(bindings.drop_last()) {
                Some(binding) => Some(binding),
                None => if self.ubo_index.contains_key(bindings.last()) {
                    None
                } else {
                    Some(bindings.last())
                },
            }
        }
    }

    /// The calls that attach each of `bindings` to its uniform block, in
    /// their order.
    pub open spec fn descriptor_calls(self, bindings: Seq<u32>) -> Seq<GlCall> {
        Seq::new(
            bindings.len(),
            |i: int|
                GlCall::UniformBlockBinding {
                    program: self.program_id,
                    block: self.ubo_index[bindings[i]],
                    binding: bindings[i],
                },
        )
    }
}

/// Whether a pipeline can be built from the descriptor given what the
/// context reported: the program linked, no declared attribute is at fault,
/// every attribute reads from a declared vertex buffer, and every binding
/// point resolves to a uniform block.
pub open spec fn buildable(desc: PipelineDescriptor, report: DriverReport) -> bool {
    &&& report.link_status != 0
    &&& first_fault(desc.vertex_attributes@, report.attributes@) is None
    &&& first_unbound(desc.vertex_buffers@, desc.vertex_attributes@) is None
    &&& blocks_resolved(desc.layout@, report.named_blocks@)
}

/// What the building of a pipeline that cannot be built fails with. The
/// checks are made in a fixed order and the first that fails decides: the
/// link, with the info log; the declared attributes, with the fault of the
/// first that has one; the bindings that the attributes read from, with the
/// binding of the first attribute that has no vertex buffer; the binding
/// points, with the least of those that resolve to no uniform block.
pub open spec fn refusal(desc: PipelineDescriptor, report: DriverReport) -> PipelineError {
    if report.link_status == 0 {
        PipelineError::Link(report.info_log)
    } else {
        match first_fault(desc.vertex_attributes@, report.attributes@) {
            Some(fault) => fault,
            None => match first_unbound(desc.vertex_buffers@, desc.vertex_attributes@) {
                Some(binding) => PipelineError::BindingNotFound(binding),
                None => PipelineError::InvalidBlockIndex(
                    least_unresolved(desc.layout@, report.named_blocks@),
                ),
            },
        }
    }
}

/// The pipeline that is built from the descriptor, with nothing bound yet.
pub open spec fn built(desc: PipelineDescriptor, report: DriverReport) -> PipelineView {
    PipelineView {
        vao_id: report.vao_id,
        program_id: report.program_id,
        primitive: primitive_mode(desc.primitives),
        layout: layout_of(desc.vertex_buffers@, desc.vertex_attributes@),
        binding_cache: Map::empty(),
        index_buffer_cache: 0,
        ubo_index: block_indices(desc.layout@, report.named_blocks@),
    }
}

/// A linked program with its vertex layout, ready to be bound.
#[derive(Debug)]
pub struct OpenGlPipeline {
    vao_id: u32,
    program_id: u32,
    primitive: u32,
    layout: VertexLayout,
    binding_cache: HashMap<u32, u32>,
    index_buffer_cache: u32,
    ubo_index: HashMap<u32, u32>,
}

impl View for OpenGlPipeline {
    type V = PipelineView;

    closed spec fn view(&self) -> PipelineView {
        PipelineView {
            vao_id: self.vao_id,
            program_id: self.program_id,
            primitive: self.primitive,
            layout: self.layout@,
            binding_cache: self.binding_cache@,
            index_buffer_cache: self.index_buffer_cache,
            ubo_index: self.ubo_index@,
        }
    }
}

impl OpenGlPipeline {
    /// Builds the pipeline that `desc` describes from what the context
    /// reported. Fails, in this order, with the info log when the program did
    /// not link; with the fault of the first declared attribute that has one;
    /// with the binding of the first attribute that reads from an undeclared
    /// vertex buffer; with the least binding point that resolves to no
    /// uniform block.
    pub fn new(desc: PipelineDescriptor, report: DriverReport) -> (res: Result<Self, PipelineError>)
        ensures
            buildable(desc, report) ==> res is Ok && res->Ok_0@ == built(desc, report),
            !buildable(desc, report) ==> res is Err && res->Err_0 == refusal(desc, report),
    {
        let DriverReport { program_id, link_status, info_log, attributes, vao_id, named_blocks } =
            report;
        let program_id = match validate_program(program_id, link_status, info_log) {
            Ok(id) => id,
            Err(log) => {
                return Err(PipelineError::Link(log));
            },
        };
        let program_id = match validate_attrs(program_id, &desc.vertex_attributes, &attributes) {
            Ok(id) => id,
            Err(e) => {
                return Err(e);
            },
        };
        proof {
            lemma_faultless_in_range(desc.vertex_attributes@, attributes@);
        }
        let layout = match build_layout(&desc.vertex_buffers, &desc.vertex_attributes) {
            Ok(layout) => layout,
            Err(e) => {
                return Err(e);
            },
        };
        let ubo_index = match ubo_bindings(desc.layout, &named_blocks) {
            Ok(ubo_index) => ubo_index,
            Err(e) => {
                return Err(e);
            },
        };
        Ok(
            OpenGlPipeline {
                vao_id,
                program_id,
                primitive: to_gl_primitive(desc.primitives),
                layout,
                binding_cache: HashMap::new(),
                index_buffer_cache: 0,
                ubo_index,
            },
        )
    }

    /// The calls that make this pipeline the active one.
    pub fn prepare(&self) -> (calls: Vec<GlCall>)
        ensures
            calls@ == self@.prepare_calls(),
    {
        let mut calls: Vec<GlCall> = Vec::new();
        calls.push(GlCall::BindVertexArray { vao: self.vao_id });
        calls.push(GlCall::UseProgram { program: self.program_id });
        calls.push(GlCall::Enable { cap: glenum::CULL_FACE });
        calls.push(GlCall::CullFace { mode: glenum::BACK });
        calls.push(GlCall::Enable { cap: glenum::DEPTH_TEST });
        proof {
            assert(calls@ =~= self@.prepare_calls());
        }
        calls
    }

    /// The mode that the pipeline draws with.
    pub fn primitive(&self) -> (mode: u32)
        ensures
            mode == self@.primitive,
    {
        self.primitive
    }

    /// The name of the vertex array of the pipeline.
    pub fn vao_id(&self) -> (id: u32)
        ensures
            id == self@.vao_id,
    {
        self.vao_id
    }

    /// The name of the linked program of the pipeline.
    pub fn program_id(&self) -> (id: u32)
        ensures
            id == self@.program_id,
    {
        self.program_id
    }

    /// What the vertex layout knows of `binding`, if it has that binding.
    pub fn binding_layout(&self, binding: u32) -> (found: Option<&BindingLayout>)
        ensures
            match found {
                Some(entry) => self@.layout.contains_key(binding) && self@.layout[binding] == entry@,
                None => !self@.layout.contains_key(binding),
            },
    {
        self.layout.get(binding)
    }

    /// The buffer that `binding` was set up with, if it has been set up.
    pub fn bound_buffer(&self, binding: u32) -> (found: Option<u32>)
        ensures
            found == if self@.binding_cache.contains_key(binding) {
                Some(self@.binding_cache[binding])
            } else {
                None
            },
    {
        broadcast use vstd::std_specs::hash::group_hash_axioms;

        match self.binding_cache.get(&binding) {
            Some(id) => Some(*id),
            None => None,
        }
    }

    /// The index buffer that was bound last, or 0 where none was.
    pub fn bound_index_buffer(&self) -> (id: u32)
        ensures
            id == self@.index_buffer_cache,
    {
        self.index_buffer_cache
    }

    /// The uniform block that the descriptor binding `binding` resolved to,
    /// if the pipeline has that binding.
    pub fn uniform_block(&self, binding: u32) -> (found: Option<u32>)
        ensures
            found == if self@.ubo_index.contains_key(binding) {
                Some(self@.ubo_index[binding])
            } else {
                None
            },
    {
        broadcast use vstd::std_specs::hash::group_hash_axioms;

        match self.ubo_index.get(&binding) {
            Some(index) => Some(*index),
            None => None,
        }
    }

    /// Binds `buffer` as the index buffer and returns the calls this takes:
    /// one bind, or none where the buffer is the one bound last.
    pub fn bind_index(&mut self, buffer: &OpenGlBuffer) -> (calls: Vec<GlCall>)
        ensures
            calls@ == old(self)@.index_calls(*buffer),
            final(self)@ == old(self)@.with_index(*buffer),
    {
        let mut calls: Vec<GlCall> = Vec::new();
        if self.index_buffer_cache != buffer.id {
            calls.push(buffer.bind());
            self.index_buffer_cache = buffer.id;
        }
        calls
    }

    /// The calls that attach each of `bindings` to the uniform block that the
    /// pipeline resolved for it. Fails on the first binding that it resolved
    /// no block for.
    pub fn bind_descriptors(&self, bindings: &Vec<u32>) -> (res: Result<Vec<GlCall>, ExecuteError>)
        ensures
            match self@.unresolved(bindings@) {
                Some(binding) => res == Err::<Vec<GlCall>, ExecuteError>(
                    ExecuteError::UnresolvedDescriptor(binding),
                ),
                None => res is Ok && res->Ok_0@ == self@.descriptor_calls(bindings@),
            },
    {
        broadcast use vstd::std_specs::hash::group_hash_axioms;

        let mut calls: Vec<GlCall> = Vec::new();
        let mut i: usize = 0;
        while i < bindings.len()
            invariant
                i <= bindings.len(),
                self@.unresolved(bindings@.take(i as int)) is None,
                calls@ == self@.descriptor_calls(bindings@.take(i as int)),
            decreases bindings.len() - i,
        {
            let binding: u32 = bindings[i];
            proof {
                assert(bindings@.take(i + 1).drop_last() =~= bindings@.take(i as int));
            }
            match self.ubo_index.get(&binding) {
                Some(block) => {
                    calls.push(
                        GlCall::UniformBlockBinding {
                            program: self.program_id,
                            block: *block,
                            binding,
                        },
                    );
                },
                None => {
                    proof {
                        lemma_unresolved_stays(self@, bindings@, i + 1);
                    }
                    return Err(ExecuteError::UnresolvedDescriptor(binding));
                },
            }
            proof {
                assert(calls@ =~= self@.descriptor_calls(bindings@.take(i + 1)));
            }
            i += 1;
        }
        proof {
            assert(bindings@.take(bindings.len() as int) =~= bindings@);
        }
        Ok(calls)
    }

    /// Binds `buffer` to the vertex binding `binding` and returns the calls
    /// this takes. Fails, and changes nothing, where the vertex layout has no
    /// such binding. A binding that was set up before takes no call, whatever
    /// buffer is given; one that was not is set up and remembered.
    pub fn bind_buffer(&mut self, binding: u32, buffer: &OpenGlBuffer) -> (res: Result<
        Vec<GlCall>,
        ExecuteError,
    >)
        ensures
            !old(self)@.layout.contains_key(binding) ==> res == Err::<Vec<GlCall>, ExecuteError>(
                ExecuteError::UnknownBinding(binding),
            ) && final(self)@ == old(self)@,
            old(self)@.layout.contains_key(binding) ==> res is Ok && res->Ok_0@
                == old(self)@.vertex_calls(binding, *buffer) && final(self)@
                == old(self)@.with_vertex(binding, *buffer),
    {
        broadcast use vstd::std_specs::hash::group_hash_axioms;

        let entry = match self.layout.get(binding) {
            Some(entry) => entry,
            None => {
                return Err(ExecuteError::UnknownBinding(binding));
            },
        };
        let mut calls: Vec<GlCall> = Vec::new();
        if !self.binding_cache.contains_key(&binding) {
            calls.push(buffer.bind());
            let mut i: usize = 0;
            proof {
                assert(calls@ =~= seq![buffer.bind_call()] + attributes_calls(
                    entry.buffer.stride,
                    entry.attributes@.take(0),
                ));
            }
            while i < entry.attributes.len()
                invariant
                    i <= entry.attributes.len(),
                    forall|j: int|
                        0 <= j < entry.attributes@.len() ==> in_range(
                            #[trigger] entry.attributes@[j],
                        ),
                    calls@ == seq![buffer.bind_call()] + attributes_calls(
                        entry.buffer.stride,
                        entry.attributes@.take(i as int),
                    ),
                decreases entry.attributes.len() - i,
            {
                proof {
                    assert(entry.attributes@.take(i + 1).drop_last() =~= entry.attributes@.take(
                        i as int,
                    ));
                }
                attribute_pointers(&mut calls, entry.buffer.stride, &entry.attributes[i]);
                i += 1;
            }
            proof {
                assert(entry.attributes@.take(entry.attributes.len() as int)
                    =~= entry.attributes@);
            }
            self.binding_cache.insert(binding, buffer.id);
        }
        Ok(calls)
    }
}

impl Clone for OpenGlPipeline {
    /// A pipeline in the same state, caches included.
    fn clone(&self) -> (copy: Self)
        ensures
            copy@ == self@,
    {
        OpenGlPipeline {
            vao_id: self.vao_id,
            program_id: self.program_id,
            primitive: self.primitive,
            layout: self.layout.clone(),
            binding_cache: self.binding_cache.clone(),
            index_buffer_cache: self.index_buffer_cache,
            ubo_index: self.ubo_index.clone(),
        }
    }
}

/// A descriptor with an attribute that reads from a binding without a
/// declared vertex buffer is never built. Where the program linked and no
/// declared attribute is at fault, it is refused with such a binding: the
/// one that the first of these attributes reads from.
pub proof fn lemma_undeclared_binding_refused(desc: PipelineDescriptor, report: DriverReport, k: int)
    requires
        0 <= k < desc.vertex_attributes@.len(),
        undeclared(desc.vertex_buffers@, desc.vertex_attributes@[k].binding as u32),
    ensures
        !buildable(desc, report),
        report.link_status != 0 && first_fault(desc.vertex_attributes@, report.attributes@)
            is None ==> exists|binding: u16|
            refusal(desc, report) == PipelineError::BindingNotFound(binding) && undeclared(
                desc.vertex_buffers@,
                binding as u32,
            ) && #[trigger] reads_from(desc.vertex_attributes@, binding as u32),
{
    lemma_first_unbound(desc.vertex_buffers@, desc.vertex_attributes@);
    let binding = first_unbound(desc.vertex_buffers@, desc.vertex_attributes@).unwrap();
    assert(first_unbound(desc.vertex_buffers@, desc.vertex_attributes@) is Some);
    if report.link_status != 0 && first_fault(desc.vertex_attributes@, report.attributes@) is None {
        assert(refusal(desc, report) == PipelineError::BindingNotFound(binding));
        assert(reads_from(desc.vertex_attributes@, binding as u32));
    }
}

/// A binding that the pipeline has no block for among the first `n`
/// bindings is the first such binding of the whole list.
pub proof fn lemma_unresolved_stays(pipeline: PipelineView, bindings: Seq<u32>, n: int)
    requires
        0 <= n <= bindings.len(),
        pipeline.unresolved(bindings.take(n)) is Some,
    ensures
        pipeline.unresolved(bindings) == pipeline.unresolved(bindings.take(n)),
    decreases bindings.len() - n,
{
    if n == bindings.len() {
        assert(bindings.take(n) =~= bindings);
    } else {
        assert(bindings.take(n + 1).drop_last() =~= bindings.take(n));
        lemma_unresolved_stays(pipeline, bindings, n + 1);
    }
}

} // verus!
