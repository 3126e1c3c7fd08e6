//! The vertex layout of a pipeline: for each binding that an attribute reads
//! from, the vertex buffer declared for it and the attributes that read from
//! it.

use std::collections::HashMap;
use vstd::prelude::*;
use crate::api::{AttributeDescriptor, VertexBufferDescriptor};
use crate::attribute::{in_range, PipelineError};
use crate::grouping::{chunk_by_binding, concat_runs, is_runs_of, lemma_concat_runs_add, Run};

verus! {

/// What a pipeline knows of one binding: the vertex buffer declared for it
/// and the attributes that read from it, in their declared order.
#[derive(Debug, Clone)]
pub struct BindingLayout {
    pub buffer: VertexBufferDescriptor,
    pub attributes: Vec<AttributeDescriptor>,
}

/// A [`BindingLayout`] as contracts see it.
pub struct BindingLayoutView {
    pub buffer: VertexBufferDescriptor,
    pub attributes: Seq<AttributeDescriptor>,
}

impl View for BindingLayout {
    type V = BindingLayoutView;

    open spec fn view(&self) -> BindingLayoutView {
        BindingLayoutView { buffer: self.buffer, attributes: self.attributes@ }
    }
}

/// The vertex layout as contracts see it: a map from bindings to what is
/// known of them.
pub type LayoutView = Map<u32, BindingLayoutView>;

/// The table `table` with each entry taken by its view.
pub open spec fn table_view(table: Map<u32, BindingLayout>) -> LayoutView {
    Map::new(|binding: u32| table.contains_key(binding), |binding: u32| table[binding]@)
}

/// The attributes that read from `binding`.
pub open spec fn on_binding(binding: u32) -> spec_fn(AttributeDescriptor) -> bool {
    |attr: AttributeDescriptor| attr.binding == binding
}

/// The first of `buffers` that is declared for `binding`.
pub open spec fn buffer_for(buffers: Seq<VertexBufferDescriptor>, binding: u32) -> Option<
    VertexBufferDescriptor,
>
    decreases buffers.len(),
{
    if buffers.len() == 0 {
        None
    } else if buffers[0].binding == binding {
        Some(buffers[0])
    } else {
        buffer_for(buffers.drop_first(), binding)
    }
}

/// Whether one of `attrs` reads from `binding`.
pub open spec fn reads_from(attrs: Seq<AttributeDescriptor>, binding: u32) -> bool {
    exists|k: int| 0 <= k < attrs.len() && (#[trigger] attrs[k]).binding == binding
}

/// The vertex layout that `buffers` and `attrs` declare: an entry for each
/// binding that some attribute reads from, made of the first vertex buffer
/// declared for the binding and of all the attributes that read from it, in
/// their order.
pub open spec fn layout_of(
    buffers: Seq<VertexBufferDescriptor>,
    attrs: Seq<AttributeDescriptor>,
) -> LayoutView {
    Map::new(
        |binding: u32| reads_from(attrs, binding),
        |binding: u32|
            BindingLayoutView {
                buffer: buffer_for(buffers, binding).unwrap(),
                attributes: attrs.filter(on_binding(binding)),
            },
    )
}

/// The binding of the first of `attrs` that reads from a binding without a
/// vertex buffer.
pub open spec fn first_unbound(
    buffers: Seq<VertexBufferDescriptor>,
    attrs: Seq<AttributeDescriptor>,
) -> Option<u16>
    decreases attrs.len(),
{
    if attrs.len() == 0 {
        None
    } else {
        match first_unbound(buffers, attrs.drop_last()) {
            Some(binding) => Some(binding),
            None => if buffer_for(buffers, attrs.last().binding as u32) is None {
                Some(attrs.last().binding)
            } else {
                None
            },
        }
    }
}

/// Whether no vertex buffer is declared for `binding`.
pub open spec fn undeclared(buffers: Seq<VertexBufferDescriptor>, binding: u32) -> bool {
    forall|i: int| 0 <= i < buffers.len() ==> (#[trigger] buffers[i]).binding != binding
}

/// A binding has a vertex buffer exactly if one is declared for it, and the
/// buffer found is declared for that binding.
pub proof fn lemma_buffer_for(buffers: Seq<VertexBufferDescriptor>, binding: u32)
    ensures
        buffer_for(buffers, binding) is None <==> undeclared(buffers, binding),
        buffer_for(buffers, binding) is Some ==> buffer_for(buffers, binding).unwrap().binding
            == binding && buffers.contains(buffer_for(buffers, binding).unwrap()),
    decreases buffers.len(),
{
    if buffers.len() > 0 {
        let rest = buffers.drop_first();
        lemma_buffer_for(rest, binding);
        if buffers[0].binding != binding {
            if undeclared(rest, binding) {
                assert forall|i: int| 0 <= i < buffers.len() implies (#[trigger] buffers[i]).binding
                    != binding by {
                    if i > 0 {
                        assert(rest[i - 1] == buffers[i]);
                    }
                }
            } else {
                let i = choose|i: int| 0 <= i < rest.len() && (#[trigger] rest[i]).binding == binding;
                assert(buffers[i + 1] == rest[i]);
            }
            if buffer_for(rest, binding) is Some {
                let found = buffer_for(rest, binding).unwrap();
                let i = choose|i: int| 0 <= i < rest.len() && rest[i] == found;
                assert(buffers[i + 1] == found);
            }
        } else {
            assert(buffers[0] == buffers[0]);
        }
    }
}

/// A layout is built exactly if every attribute reads from a declared
/// binding. Otherwise the binding that is named reads from no declared vertex
/// buffer, belongs to one of the attributes, and every attribute before that
/// one reads from a declared binding.
pub proof fn lemma_first_unbound(
    buffers: Seq<VertexBufferDescriptor>,
    attrs: Seq<AttributeDescriptor>,
)
    ensures
        first_unbound(buffers, attrs) is None <==> forall|k: int|
            0 <= k < attrs.len() ==> !undeclared(buffers, (#[trigger] attrs[k]).binding as u32),
        first_unbound(buffers, attrs) is Some ==> exists|k: int|
            0 <= k < attrs.len() && (#[trigger] attrs[k]).binding == first_unbound(
                buffers,
                attrs,
            ).unwrap() && undeclared(buffers, attrs[k].binding as u32) && forall|j: int|
                0 <= j < k ==> !undeclared(buffers, (#[trigger] attrs[j]).binding as u32),
    decreases attrs.len(),
{
    if attrs.len() > 0 {
        let before = attrs.drop_last();
        let last = attrs.len() - 1;
        lemma_first_unbound(buffers, before);
        lemma_buffer_for(buffers, attrs.last().binding as u32);
        assert(attrs.last() == attrs[last]);
        assert forall|k: int| 0 <= k < before.len() implies before[k] == attrs[k] by {}
        if first_unbound(buffers, before) is Some {
            let k = choose|k: int|
                0 <= k < before.len() && (#[trigger] before[k]).binding == first_unbound(
                    buffers,
                    before,
                ).unwrap() && undeclared(buffers, before[k].binding as u32) && forall|j: int|
                    0 <= j < k ==> !undeclared(buffers, (#[trigger] before[j]).binding as u32);
            assert(attrs[k] == before[k]);
            assert forall|j: int| 0 <= j < k implies !undeclared(
                buffers,
                (#[trigger] attrs[j]).binding as u32,
            ) by {
                assert(before[j] == attrs[j]);
            }
        } else {
            assert forall|j: int| 0 <= j < last implies !undeclared(
                buffers,
                (#[trigger] attrs[j]).binding as u32,
            ) by {
                assert(before[j] == attrs[j]);
            }
            if first_unbound(buffers, attrs) is None {
                assert forall|k: int| 0 <= k < attrs.len() implies !undeclared(
                    buffers,
                    (#[trigger] attrs[k]).binding as u32,
                ) by {
                    if k < last {
                        assert(before[k] == attrs[k]);
                    }
                }
            }
        }
    }
}

/// Whether all of `attrs` read from `binding`.
pub open spec fn all_on(attrs: Seq<AttributeDescriptor>, binding: u32) -> bool {
    forall|j: int| 0 <= j < attrs.len() ==> (#[trigger] attrs[j]).binding == binding
}

proof fn lemma_first_unbound_add(
    buffers: Seq<VertexBufferDescriptor>,
    s: Seq<AttributeDescriptor>,
    t: Seq<AttributeDescriptor>,
)
    ensures
        first_unbound(buffers, s + t) == match first_unbound(buffers, s) {
            Some(binding) => Some(binding),
            None => first_unbound(buffers, t),
        },
    decreases t.len(),
{
    if t.len() == 0 {
        assert(s + t =~= s);
    } else {
        lemma_first_unbound_add(buffers, s, t.drop_last());
        assert((s + t).drop_last() =~= s + t.drop_last());
        assert((s + t).last() == t.last());
    }
}

proof fn lemma_first_unbound_run(
    buffers: Seq<VertexBufferDescriptor>,
    run: Seq<AttributeDescriptor>,
    binding: u16,
)
    requires
        run.len() > 0,
        all_on(run, binding as u32),
    ensures
        first_unbound(buffers, run) == if buffer_for(buffers, binding as u32) is None {
            Some(binding)
        } else {
            None
        },
    decreases run.len(),
{
    assert(run.last() == run[run.len() - 1]);
    if run.len() > 1 {
        assert forall|j: int| 0 <= j < run.drop_last().len() implies (#[trigger] run.drop_last()[j]).binding
            == binding as u32 by {
            assert(run.drop_last()[j] == run[j]);
        }
        lemma_first_unbound_run(buffers, run.drop_last(), binding);
    } else {
        assert(run.drop_last().len() == 0);
    }
}

proof fn lemma_filter_absent(attrs: Seq<AttributeDescriptor>, binding: u32)
    requires
        !reads_from(attrs, binding),
    ensures
        attrs.filter(on_binding(binding)) == Seq::<AttributeDescriptor>::empty(),
    decreases attrs.len(),
{
    reveal(Seq::filter);
    if attrs.len() > 0 {
        assert forall|k: int| 0 <= k < attrs.drop_last().len() implies (#[trigger] attrs.drop_last()[k]).binding
            != binding by {
            assert(attrs.drop_last()[k] == attrs[k]);
        }
        lemma_filter_absent(attrs.drop_last(), binding);
        assert(attrs.last() == attrs[attrs.len() - 1]);
        assert(!on_binding(binding)(attrs.last()));
    }
    assert(attrs.filter(on_binding(binding)) =~= Seq::<AttributeDescriptor>::empty());
}

proof fn lemma_filter_run(
    before: Seq<AttributeDescriptor>,
    run: Seq<AttributeDescriptor>,
    on: u32,
    binding: u32,
)
    requires
        all_on(run, on),
    ensures
        (before + run).filter(on_binding(binding)) == if binding == on {
            before.filter(on_binding(binding)) + run
        } else {
            before.filter(on_binding(binding))
        },
    decreases run.len(),
{
    if run.len() == 0 {
        assert(before + run =~= before);
        assert(before.filter(on_binding(binding)) + run =~= before.filter(on_binding(binding)));
    } else {
        let shorter = run.drop_last();
        assert forall|j: int| 0 <= j < shorter.len() implies (#[trigger] shorter[j]).binding
            == on by {
            assert(shorter[j] == run[j]);
        }
        lemma_filter_run(before, shorter, on, binding);
        assert(run.last() == run[run.len() - 1]);
        assert(before + run =~= (before + shorter).push(run.last()));
        (before + shorter).lemma_filter_push(run.last(), on_binding(binding));
        if binding == on {
            assert(on_binding(binding)(run.last()));
            assert((before.filter(on_binding(binding)) + shorter).push(run.last())
                =~= before.filter(on_binding(binding)) + run);
        } else {
            assert(!on_binding(binding)(run.last()));
        }
    }
}

proof fn lemma_reads_from_run(
    before: Seq<AttributeDescriptor>,
    run: Seq<AttributeDescriptor>,
    on: u32,
    binding: u32,
)
    requires
        run.len() > 0,
        all_on(run, on),
    ensures
        reads_from(before + run, binding) <==> reads_from(before, binding) || binding == on,
{
    if reads_from(before + run, binding) {
        let k = choose|k: int|
            0 <= k < (before + run).len() && (#[trigger] (before + run)[k]).binding == binding;
        if k < before.len() {
            assert(before[k] == (before + run)[k]);
        } else {
            assert(run[k - before.len()] == (before + run)[k]);
        }
    }
    if reads_from(before, binding) {
        let k = choose|k: int| 0 <= k < before.len() && (#[trigger] before[k]).binding == binding;
        assert((before + run)[k] == before[k]);
    }
    if binding == on {
        assert((before + run)[before.len() as int] == run[0]);
    }
}

/// Adding a run of attributes on one binding to a layout replaces the entry
/// of that binding by one with the run appended, and leaves the others.
proof fn lemma_layout_run(
    buffers: Seq<VertexBufferDescriptor>,
    before: Seq<AttributeDescriptor>,
    run: Seq<AttributeDescriptor>,
    on: u32,
)
    requires
        run.len() > 0,
        all_on(run, on),
    ensures
        layout_of(buffers, before + run) == layout_of(buffers, before).insert(
            on,
            BindingLayoutView {
                buffer: buffer_for(buffers, on).unwrap(),
                attributes: before.filter(on_binding(on)) + run,
            },
        ),
{
    let left = layout_of(buffers, before + run);
    let right = layout_of(buffers, before).insert(
        on,
        BindingLayoutView {
            buffer: buffer_for(buffers, on).unwrap(),
            attributes: before.filter(on_binding(on)) + run,
        },
    );
    assert forall|binding: u32| left.contains_key(binding) == right.contains_key(binding) by {
        lemma_reads_from_run(before, run, on, binding);
    }
    assert forall|binding: u32| left.contains_key(binding) implies left[binding]
        == right[binding] by {
        lemma_reads_from_run(before, run, on, binding);
        lemma_filter_run(before, run, on, binding);
    }
    assert(left =~= right);
}

/// What run `i` of a cut into runs adds to the runs before it.
proof fn lemma_run_step(runs: Seq<Run>, attrs: Seq<AttributeDescriptor>, i: int)
    requires
        is_runs_of(runs, attrs),
        0 <= i < runs.len(),
    ensures
        concat_runs(runs.take(i + 1)) == concat_runs(runs.take(i)) + runs[i].1@,
        runs[i].1@.len() > 0,
        all_on(runs[i].1@, runs[i].0 as u32),
{
    assert(runs.take(i + 1).drop_last() =~= runs.take(i));
    assert(runs.take(i + 1).last() == runs[i]);
    assert forall|j: int| 0 <= j < runs[i].1@.len() implies (#[trigger] runs[i].1@[j]).binding
        == runs[i].0 as u32 by {
        assert(runs[i].1@[j].binding == runs[i].0);
    }
}

/// The first of `buffers` that is declared for `binding`. Computes
/// [`buffer_for`].
pub fn find_buffer(buffers: &Vec<VertexBufferDescriptor>, binding: u16) -> (found: Option<
    VertexBufferDescriptor,
>)
    ensures
        found == buffer_for(buffers@, binding as u32),
{
    let mut i: usize = 0;
    proof {
        assert(buffers@.skip(0) =~= buffers@);
    }
    while i < buffers.len()
        invariant
            i <= buffers.len(),
            buffer_for(buffers@, binding as u32) == buffer_for(
                buffers@.skip(i as int),
                binding as u32,
            ),
        decreases buffers.len() - i,
    {
        let buffer = buffers[i];
        if buffer.binding as u16 == binding {
            return Some(buffer);
        }
        proof {
            assert(buffers@.skip(i as int).drop_first() =~= buffers@.skip(i + 1));
        }
        i += 1;
    }
    None
}

/// Whether every attribute of the layout can be set up within the range of
/// locations and offsets.
pub open spec fn layout_in_range(layout: LayoutView) -> bool {
    forall|binding: u32, i: int|
        layout.contains_key(binding) && 0 <= i < layout[binding].attributes.len() ==> in_range(
            #[trigger] layout[binding].attributes[i],
        )
}

proof fn lemma_layout_of_in_range(
    buffers: Seq<VertexBufferDescriptor>,
    attrs: Seq<AttributeDescriptor>,
)
    requires
        forall|i: int| 0 <= i < attrs.len() ==> in_range(#[trigger] attrs[i]),
    ensures
        layout_in_range(layout_of(buffers, attrs)),
{
    assert forall|binding: u32, i: int|
        layout_of(buffers, attrs).contains_key(binding) && 0 <= i < layout_of(
            buffers,
            attrs,
        )[binding].attributes.len() implies in_range(
        #[trigger] layout_of(buffers, attrs)[binding].attributes[i],
    ) by {
        let kept = attrs.filter(on_binding(binding));
        assert(kept.contains(kept[i]));
        attrs.lemma_filter_contains_rev(on_binding(binding), kept[i]);
        let k = choose|k: int| 0 <= k < attrs.len() && attrs[k] == kept[i];
        assert(in_range(attrs[k]));
    }
}

/// The vertex layout of a pipeline. It is fixed once built, and every
/// attribute in it can be set up within the range of locations and offsets.
#[derive(Debug)]
pub struct VertexLayout {
    table: HashMap<u32, BindingLayout>,
}

impl View for VertexLayout {
    type V = LayoutView;

    closed spec fn view(&self) -> LayoutView {
        table_view(self.table@)
    }
}

impl VertexLayout {
    #[verifier::type_invariant]
    spec fn attributes_in_range(self) -> bool {
        layout_in_range(table_view(self.table@))
    }

    /// What the layout knows of `binding`, if it has that binding.
    pub fn get(&self, binding: u32) -> (found: Option<&BindingLayout>)
        ensures
            match found {
                Some(entry) => self@.contains_key(binding) && self@[binding] == entry@
                    && forall|j: int|
                    0 <= j < entry.attributes@.len() ==> in_range(#[trigger] entry.attributes@[j]),
                None => !self@.contains_key(binding),
            },
    {
        broadcast use vstd::std_specs::hash::group_hash_axioms;

        proof {
            use_type_invariant(self);
        }
        let found = self.table.get(&binding);
        proof {
            if let Some(entry) = found {
                assert(table_view(self.table@).contains_key(binding));
                assert(table_view(self.table@)[binding] == entry@);
                assert forall|j: int| 0 <= j < entry.attributes@.len() implies in_range(
                    #[trigger] entry.attributes@[j],
                ) by {
                    assert(table_view(self.table@)[binding].attributes[j]
                        == entry.attributes@[j]);
                }
            }
        }
        found
    }
}

impl Clone for VertexLayout {
    /// The same layout.
    fn clone(&self) -> (copy: Self)
        ensures
            copy@ == self@,
    {
        proof {
            use_type_invariant(self);
        }
        VertexLayout { table: self.table.clone() }
    }
}

/// Copies the attributes of `run` to the end of `attributes`.
fn extend_with(attributes: &mut Vec<AttributeDescriptor>, run: &Vec<AttributeDescriptor>)
    ensures
        final(attributes)@ == old(attributes)@ + run@,
{
    let mut j: usize = 0;
    proof {
        assert(attributes@ =~= old(attributes)@ + run@.take(0));
    }
    while j < run.len()
        invariant
            j <= run.len(),
            attributes@ == old(attributes)@ + run@.take(j as int),
        decreases run.len() - j,
    {
        attributes.push(run[j]);
        proof {
            assert(run@.take(j + 1) =~= run@.take(j as int).push(run@[j as int]));
            assert(attributes@ =~= old(attributes)@ + run@.take(j + 1));
        }
        j += 1;
    }
    proof {
        assert(run@.take(run.len() as int) =~= run@);
    }
}

/// Enters a run of attributes on the binding `key`, whose vertex buffer is
/// `buffer`, into a table that holds the layout of the attributes before it.
fn add_run(
    table: &mut HashMap<u32, BindingLayout>,
    buffer: VertexBufferDescriptor,
    key: u32,
    run: &Vec<AttributeDescriptor>,
    Ghost(buffers): Ghost<Seq<VertexBufferDescriptor>>,
    Ghost(before): Ghost<Seq<AttributeDescriptor>>,
)
    requires
        table_view(old(table)@) == layout_of(buffers, before),
        buffer_for(buffers, key) == Some(buffer),
        run@.len() > 0,
        all_on(run@, key),
    ensures
        table_view(final(table)@) == layout_of(buffers, before + run@),
{
    broadcast use vstd::std_specs::hash::group_hash_axioms;

    let ghost old_table = table@;
    let mut entry = match table.remove(&key) {
        Some(entry) => entry,
        None => BindingLayout { buffer, attributes: Vec::new() },
    };
    proof {
        if old_table.contains_key(key) {
            assert(table_view(old_table).contains_key(key));
            assert(table_view(old_table)[key] == old_table[key]@);
        } else {
            assert(!table_view(old_table).contains_key(key));
            assert(!reads_from(before, key));
            lemma_filter_absent(before, key);
        }
        assert(entry.buffer == buffer);
        assert(entry.attributes@ =~= before.filter(on_binding(key)));
    }
    extend_with(&mut entry.attributes, run);
    let ghost added = entry@;
    table.insert(key, entry);
    proof {
        lemma_layout_run(buffers, before, run@, key);
        assert(table@ =~= old_table.insert(key, entry));
        assert(table_view(table@) =~= table_view(old_table).insert(key, added));
    }
}

/// Builds the vertex layout that `buffers` and `attrs` declare. Fails when
/// an attribute reads from a binding that no vertex buffer is declared for,
/// naming the binding of the first such attribute.
pub fn build_layout(buffers: &Vec<VertexBufferDescriptor>, attrs: &Vec<AttributeDescriptor>) -> (res:
    Result<VertexLayout, PipelineError>)
    requires
        forall|i: int| 0 <= i < attrs.len() ==> in_range(#[trigger] attrs[i]),
    ensures
        match first_unbound(buffers@, attrs@) {
            Some(binding) => res is Err && res->Err_0 == PipelineError::BindingNotFound(binding),
            None => res is Ok && res->Ok_0@ == layout_of(buffers@, attrs@),
        },
{
    let runs = chunk_by_binding(attrs);
    let mut table: HashMap<u32, BindingLayout> = HashMap::new();
    let mut i: usize = 0;
    proof {
        assert(table_view(table@) =~= layout_of(buffers@, concat_runs(runs@.take(0))));
    }
    while i < runs.len()
        invariant
            i <= runs.len(),
            is_runs_of(runs@, attrs@),
            first_unbound(buffers@, concat_runs(runs@.take(i as int))) is None,
            table_view(table@) == layout_of(buffers@, concat_runs(runs@.take(i as int))),
        decreases runs.len() - i,
    {
        let binding: u16 = runs[i].0;
        let run: &Vec<AttributeDescriptor> = &runs[i].1;
        let key: u32 = binding as u32;
        let ghost before = concat_runs(runs@.take(i as int));
        proof {
            lemma_run_step(runs@, attrs@, i as int);
            lemma_first_unbound_add(buffers@, before, run@);
            lemma_first_unbound_run(buffers@, run@, binding);
        }
        match find_buffer(buffers, binding) {
            None => {
                proof {
                    assert(runs@ =~= runs@.take(i + 1) + runs@.skip(i + 1));
                    lemma_concat_runs_add(runs@.take(i + 1), runs@.skip(i + 1));
                    lemma_first_unbound_add(
                        buffers@,
                        before + run@,
                        concat_runs(runs@.skip(i + 1)),
                    );
                }
                return Err(PipelineError::BindingNotFound(binding));
            },
            Some(buffer) => {
                add_run(&mut table, buffer, key, run, Ghost(buffers@), Ghost(before));
            },
        }
        i += 1;
    }
    proof {
        assert(runs@.take(runs.len() as int) =~= runs@);
        lemma_layout_of_in_range(buffers@, attrs@);
    }
    Ok(VertexLayout { table })
}

} // verus!
