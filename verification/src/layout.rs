//! Descriptor-set layouts and pipeline layouts.
//!
//! A descriptor-set layout maps binding points to what is bound there. A
//! pipeline layout is the same map with, for some binding points, a hint that
//! says how the point is found in a linked program.

use std::collections::HashMap;
use vstd::prelude::*;
use vstd::std_specs::iter::IteratorSpec;
use crate::api::{DescriptorSetLayoutBinding, PipelineLayoutHint};

verus! {

/// A binding point of a pipeline layout: what is bound there and, where one
/// was given, the hint for finding it.
pub type LayoutEntry = (DescriptorSetLayoutBinding, Option<PipelineLayoutHint>);

/// The map that `bindings` describe, a later binding replacing an earlier one
/// for the same binding point.
pub open spec fn bindings_map(bindings: Seq<DescriptorSetLayoutBinding>) -> Map<
    u32,
    DescriptorSetLayoutBinding,
>
    decreases bindings.len(),
{
    if bindings.len() == 0 {
        Map::empty()
    } else {
        bindings_map(bindings.drop_last()).insert(bindings.last().binding, bindings.last())
    }
}

/// The pipeline layout over `bindings` before any hint is attached.
pub open spec fn unhinted(bindings: Map<u32, DescriptorSetLayoutBinding>) -> Map<u32, LayoutEntry> {
    Map::new(
        |binding: u32| bindings.contains_key(binding),
        |binding: u32| (bindings[binding], None::<PipelineLayoutHint>),
    )
}

/// `base` with each of `hints` attached to its binding point, a later hint
/// replacing an earlier one for the same point.
pub open spec fn with_hints(base: Map<u32, LayoutEntry>, hints: Seq<PipelineLayoutHint>) -> Map<
    u32,
    LayoutEntry,
>
    decreases hints.len(),
{
    if hints.len() == 0 {
        base
    } else {
        let before = with_hints(base, hints.drop_last());
        let hint = hints.last();
        before.insert(hint.location, (before[hint.location].0, Some(hint)))
    }
}

/// The location of the first of `hints` that names no binding point of
/// `bindings`.
pub open spec fn first_misfit(
    bindings: Map<u32, DescriptorSetLayoutBinding>,
    hints: Seq<PipelineLayoutHint>,
) -> Option<u32>
    decreases hints.len(),
{
    if hints.len() == 0 {
        None
    } else {
        match first_misfit(bindings, hints.drop_last()) {
            Some(location) => Some(location),
            None => if bindings.contains_key(hints.last().location) {
                None
            } else {
                Some(hints.last().location)
            },
        }
    }
}

/// A hint among the first `n` that names no binding point is the first such
/// hint of the whole list.
pub proof fn lemma_misfit_stays(
    bindings: Map<u32, DescriptorSetLayoutBinding>,
    hints: Seq<PipelineLayoutHint>,
    n: int,
)
    requires
        0 <= n <= hints.len(),
        first_misfit(bindings, hints.take(n)) is Some,
    ensures
        first_misfit(bindings, hints) == first_misfit(bindings, hints.take(n)),
    decreases hints.len() - n,
{
    if n == hints.len() {
        assert(hints.take(n) =~= hints);
    } else {
        assert(hints.take(n + 1).drop_last() =~= hints.take(n));
        lemma_misfit_stays(bindings, hints, n + 1);
    }
}

/// Every hint names a binding point exactly if there is no first hint that
/// names none.
pub proof fn lemma_first_misfit(
    bindings: Map<u32, DescriptorSetLayoutBinding>,
    hints: Seq<PipelineLayoutHint>,
)
    ensures
        first_misfit(bindings, hints) is None <==> forall|i: int|
            0 <= i < hints.len() ==> bindings.contains_key(#[trigger] hints[i].location),
        first_misfit(bindings, hints) is Some ==> !bindings.contains_key(
            first_misfit(bindings, hints).unwrap(),
        ),
    decreases hints.len(),
{
    if hints.len() > 0 {
        let before = hints.drop_last();
        lemma_first_misfit(bindings, before);
        assert(hints.last() == hints[hints.len() - 1]);
        if first_misfit(bindings, before) is None {
            assert forall|i: int| 0 <= i < hints.len() - 1 implies bindings.contains_key(
                #[trigger] hints[i].location,
            ) by {
                assert(before[i] == hints[i]);
            }
        } else {
            let i = choose|i: int|
                0 <= i < before.len() && !bindings.contains_key(#[trigger] before[i].location);
            assert(before[i] == hints[i]);
        }
    }
}

/// Why a pipeline layout could not be built.
#[derive(Debug, Clone, Copy, PartialEq, Eq, Structural)]
pub enum LayoutError {
    /// A hint names a binding point that the descriptor-set layout lacks.
    UnknownLocation(u32),
}

/// Whether the numbers of `s` go strictly up.
pub open spec fn ascending(s: Seq<u32>) -> bool {
    forall|i: int, j: int| 0 <= i < j < s.len() ==> s[i] < s[j]
}

/// There is one way only to list a set of numbers in ascending order.
pub proof fn lemma_ascending_unique(a: Seq<u32>, b: Seq<u32>)
    requires
        ascending(a),
        ascending(b),
        a.to_set() == b.to_set(),
    ensures
        a == b,
    decreases a.len(),
{
    if a.len() == 0 {
        if b.len() > 0 {
            assert(b.to_set().contains(b[0]));
            assert(a.contains(b[0]));
        }
        assert(a =~= b);
    } else {
        assert(a.to_set().contains(a.last()));
        assert(b.contains(a.last()));
        assert(b.len() > 0);
        assert(b.to_set().contains(b.last()));
        assert(a.contains(b.last()));
        let i = choose|i: int| 0 <= i < b.len() && b[i] == a.last();
        let j = choose|j: int| 0 <= j < a.len() && a[j] == b.last();
        assert(a.last() == b.last());
        assert forall|x: u32| a.drop_last().to_set().contains(x) == b.drop_last().to_set().contains(
            x,
        ) by {
            if a.drop_last().contains(x) {
                let k = choose|k: int| 0 <= k < a.drop_last().len() && a.drop_last()[k] == x;
                assert(a[k] == x);
                assert(a.to_set().contains(x));
                assert(b.contains(x));
                let m = choose|m: int| 0 <= m < b.len() && b[m] == x;
                assert(m < b.len() - 1);
                assert(b.drop_last()[m] == x);
            }
            if b.drop_last().contains(x) {
                let k = choose|k: int| 0 <= k < b.drop_last().len() && b.drop_last()[k] == x;
                assert(b[k] == x);
                assert(b.to_set().contains(x));
                assert(a.contains(x));
                let m = choose|m: int| 0 <= m < a.len() && a[m] == x;
                assert(m < a.len() - 1);
                assert(a.drop_last()[m] == x);
            }
        }
        assert(a.drop_last().to_set() =~= b.drop_last().to_set());
        lemma_ascending_unique(a.drop_last(), b.drop_last());
        assert(a =~= a.drop_last().push(a.last()));
        assert(b =~= b.drop_last().push(b.last()));
    }
}

/// The numbers of `keys` in ascending order.
pub open spec fn ascending_list(keys: Set<u32>) -> Seq<u32> {
    choose|s: Seq<u32>| ascending(s) && s.to_set() == keys
}

/// An ascending list of the numbers of a set is the ascending list of the
/// set.
pub proof fn lemma_ascending_list(s: Seq<u32>)
    requires
        ascending(s),
    ensures
        ascending_list(s.to_set()) == s,
{
    let chosen = ascending_list(s.to_set());
    assert(ascending(s) && s.to_set() == s.to_set());
    lemma_ascending_unique(chosen, s);
}

/// The ascending list of a finite set lists the numbers of the set, in
/// ascending order.
pub proof fn lemma_ascending_list_of(keys: Set<u32>)
    requires
        keys.finite(),
    ensures
        ascending(ascending_list(keys)),
        ascending_list(keys).to_set() == keys,
    decreases keys.len(),
{
    if keys.len() == 0 {
        let none = Seq::<u32>::empty();
        assert(keys =~= Set::<u32>::empty());
        assert(none.to_set() =~= keys);
        assert(ascending(none) && none.to_set() == keys);
    } else {
        let greatest = greatest_of(keys);
        lemma_greatest_of(keys);
        let rest = keys.remove(greatest);
        lemma_ascending_list_of(rest);
        let below = ascending_list(rest);
        let all = below.push(greatest);
        assert forall|i: int, j: int| 0 <= i < j < all.len() implies all[i] < all[j] by {
            if j == below.len() {
                assert(below.to_set().contains(below[i]));
                assert(rest.contains(below[i]));
            }
        }
        below.lemma_push_to_set_commute(greatest);
        assert(all.to_set() =~= keys);
        assert(ascending(all) && all.to_set() == keys);
    }
}

/// The greatest number of `keys`.
pub open spec fn greatest_of(keys: Set<u32>) -> u32 {
    choose|greatest: u32|
        keys.contains(greatest) && forall|other: u32| keys.contains(other) ==> other <= greatest
}

/// A finite set of numbers that is not empty has a greatest number.
pub proof fn lemma_greatest_of(keys: Set<u32>)
    requires
        keys.finite(),
        keys.len() > 0,
    ensures
        keys.contains(greatest_of(keys)),
        forall|other: u32| keys.contains(other) ==> other <= greatest_of(keys),
    decreases keys.len(),
{
    let some = keys.choose();
    let rest = keys.remove(some);
    if rest.len() == 0 {
        assert forall|other: u32| keys.contains(other) implies other <= some by {
            if other != some {
                assert(rest.contains(other));
            }
        }
    } else {
        lemma_greatest_of(rest);
        let candidate = if greatest_of(rest) < some {
            some
        } else {
            greatest_of(rest)
        };
        assert forall|other: u32| keys.contains(other) implies other <= candidate by {
            if other != some {
                assert(rest.contains(other));
            }
        }
        assert(keys.contains(candidate));
    }
}

/// Enters `key` into the ascending list `keys` at its place.
fn insert_ascending(keys: &mut Vec<u32>, key: u32)
    requires
        ascending(old(keys)@),
        !old(keys)@.contains(key),
    ensures
        ascending(final(keys)@),
        final(keys)@.to_set() == old(keys)@.to_set().insert(key),
{
    let mut at: usize = 0;
    while at < keys.len() && keys[at] < key
        invariant
            at <= keys.len(),
            keys@ == old(keys)@,
            forall|i: int| 0 <= i < at ==> keys@[i] < key,
        decreases keys.len() - at,
    {
        at += 1;
    }
    let ghost before = keys@;
    keys.insert(at, key);
    proof {
        assert forall|i: int| at <= i < before.len() implies key < before[i] by {
            assert(before.contains(before[i]));
            if at < i {
                assert(before[at as int] < before[i]);
            }
        }
        assert forall|i: int, j: int| 0 <= i < j < keys@.len() implies keys@[i] < keys@[j] by {
            if j < at {
                assert(keys@[i] == before[i] && keys@[j] == before[j]);
            } else if j == at {
                assert(keys@[i] == before[i]);
            } else if i < at {
                assert(keys@[i] == before[i] && keys@[j] == before[j - 1]);
            } else if i == at {
                assert(keys@[j] == before[j - 1]);
            } else {
                assert(keys@[i] == before[i - 1] && keys@[j] == before[j - 1]);
            }
        }
        assert forall|x: u32| keys@.to_set().contains(x) == before.to_set().insert(key).contains(
            x,
        ) by {
            if keys@.contains(x) {
                let i = choose|i: int| 0 <= i < keys@.len() && keys@[i] == x;
                if i < at {
                    assert(before[i] == x);
                } else if i > at {
                    assert(before[i - 1] == x);
                }
            }
            if before.contains(x) {
                let i = choose|i: int| 0 <= i < before.len() && before[i] == x;
                if i < at {
                    assert(keys@[i] == x);
                } else {
                    assert(keys@[i + 1] == x);
                }
            }
            if x == key {
                assert(keys@[at as int] == x);
            }
        }
        assert(keys@.to_set() =~= before.to_set().insert(key));
    }
}

/// The keys of `m`, each once, in ascending order.
pub fn keys_of<V>(m: &HashMap<u32, V>) -> (keys: Vec<u32>)
    ensures
        keys@ == ascending_list(m@.dom()),
        ascending(keys@),
        keys@.to_set() == m@.dom(),
{
    broadcast use vstd::std_specs::hash::group_hash_axioms;

    let mut keys: Vec<u32> = Vec::new();
    let ghost all: Seq<u32> = m.keys().remaining().unref();
    for key in it: m.keys()
        invariant
            ascending(keys@),
            keys@.to_set() == all.take(it.index() as int).to_set(),
            it.seq().unref() == all,
            all.to_set() == m@.dom(),
            all.no_duplicates(),
    {
        proof {
            let seen = all.take(it.index() as int);
            assert(all.take(it.index() + 1) =~= seen.push(*key));
            seen.lemma_push_to_set_commute(*key);
            if seen.contains(*key) {
                let i = choose|i: int| 0 <= i < seen.len() && seen[i] == *key;
                assert(all[i] == all[it.index() as int]);
            }
            assert(!keys@.to_set().contains(*key));
        }
        insert_ascending(&mut keys, *key);
    }
    proof {
        assert(all.take(all.len() as int) =~= all);
        lemma_ascending_list(keys@);
    }
    keys
}

/// The binding points of a descriptor set.
#[derive(Debug)]
pub struct OpenGlDescriptorSetLayout {
    layout: HashMap<u32, DescriptorSetLayoutBinding>,
}

impl View for OpenGlDescriptorSetLayout {
    type V = Map<u32, DescriptorSetLayoutBinding>;

    closed spec fn view(&self) -> Map<u32, DescriptorSetLayoutBinding> {
        self.layout@
    }
}

impl OpenGlDescriptorSetLayout {
    /// The layout that `bindings` describe.
    pub fn new(bindings: &[DescriptorSetLayoutBinding]) -> (made: Self)
        ensures
            made@ == bindings_map(bindings@),
    {
        broadcast use vstd::std_specs::hash::group_hash_axioms;

        let mut map: HashMap<u32, DescriptorSetLayoutBinding> = HashMap::with_capacity(
            bindings.len(),
        );
        let mut i: usize = 0;
        while i < bindings.len()
            invariant
                i <= bindings.len(),
                map@ == bindings_map(bindings@.take(i as int)),
            decreases bindings.len() - i,
        {
            let b = bindings[i];
            map.insert(b.binding, b);
            proof {
                assert(bindings@.take(i + 1).drop_last() =~= bindings@.take(i as int));
            }
            i += 1;
        }
        proof {
            assert(bindings@.take(bindings.len() as int) =~= bindings@);
        }
        OpenGlDescriptorSetLayout { layout: map }
    }

    /// What is bound at `binding`, if the layout has that binding point.
    pub fn get(&self, binding: u32) -> (found: Option<DescriptorSetLayoutBinding>)
        ensures
            found == if self@.contains_key(binding) {
                Some(self@[binding])
            } else {
                None
            },
    {
        broadcast use vstd::std_specs::hash::group_hash_axioms;

        match self.layout.get(&binding) {
            Some(b) => Some(*b),
            None => None,
        }
    }
}

/// The binding points of a pipeline, with the hints attached to them.
#[derive(Debug)]
pub struct OpenGlPipelineLayout {
    layout: HashMap<u32, LayoutEntry>,
}

impl View for OpenGlPipelineLayout {
    type V = Map<u32, LayoutEntry>;

    closed spec fn view(&self) -> Map<u32, LayoutEntry> {
        self.layout@
    }
}

impl OpenGlPipelineLayout {
    /// The pipeline layout over the binding points of `desc_layout`, with
    /// `hints` attached. Fails on the first hint that names a binding point
    /// which `desc_layout` lacks.
    pub fn new(desc_layout: &OpenGlDescriptorSetLayout, hints: Vec<PipelineLayoutHint>) -> (res:
        Result<Self, LayoutError>)
        ensures
            match first_misfit(desc_layout@, hints@) {
                None => res is Ok && res->Ok_0@ == with_hints(unhinted(desc_layout@), hints@),
                Some(location) => res is Err && res->Err_0 == LayoutError::UnknownLocation(
                    location,
                ),
            },
    {
        broadcast use vstd::std_specs::hash::group_hash_axioms;

        let mut map: HashMap<u32, LayoutEntry> = HashMap::with_capacity(desc_layout.layout.len());
        let keys = keys_of(&desc_layout.layout);
        let mut k: usize = 0;
        while k < keys.len()
            invariant
                k <= keys.len(),
                keys@.to_set() == desc_layout@.dom(),
                map@.dom() == keys@.take(k as int).to_set(),
                forall|b: u32| #[trigger]
                    map@.contains_key(b) ==> map@[b] == (
                        desc_layout@[b],
                        None::<PipelineLayoutHint>,
                    ),
            decreases keys.len() - k,
        {
            let key = keys[k];
            proof {
                assert(keys@.to_set().contains(keys@[k as int]));
            }
            match desc_layout.layout.get(&key) {
                Some(b) => {
                    map.insert(key, (*b, None));
                },
                None => {
                    proof {
                        assert(false);
                    }
                },
            }
            proof {
                assert(keys@.take(k + 1) =~= keys@.take(k as int).push(key));
                keys@.take(k as int).lemma_push_to_set_commute(key);
            }
            k += 1;
        }
        proof {
            assert(keys@.take(keys.len() as int) =~= keys@);
            assert(map@ =~= unhinted(desc_layout@));
        }
        let mut i: usize = 0;
        while i < hints.len()
            invariant
                i <= hints.len(),
                first_misfit(desc_layout@, hints@.take(i as int)) is None,
                map@ == with_hints(unhinted(desc_layout@), hints@.take(i as int)),
                map@.dom() == desc_layout@.dom(),
            decreases hints.len() - i,
        {
            let h = hints[i];
            proof {
                assert(hints@.take(i + 1).drop_last() =~= hints@.take(i as int));
            }
            let found = match map.get(&h.location) {
                Some(entry) => Some(entry.0),
                None => None,
            };
            match found {
                Some(desc) => {
                    map.insert(h.location, (desc, Some(h)));
                },
                None => {
                    proof {
                        lemma_misfit_stays(desc_layout@, hints@, i + 1);
                    }
                    return Err(LayoutError::UnknownLocation(h.location));
                },
            }
            proof {
                assert(map@.dom() =~= desc_layout@.dom());
            }
            i += 1;
        }
        proof {
            assert(hints@.take(hints.len() as int) =~= hints@);
        }
        Ok(OpenGlPipelineLayout { layout: map })
    }

    /// The entry at `binding`, if the layout has that binding point.
    pub fn get(&self, binding: u32) -> (found: Option<LayoutEntry>)
        ensures
            found == if self@.contains_key(binding) {
                Some(self@[binding])
            } else {
                None
            },
    {
        broadcast use vstd::std_specs::hash::group_hash_axioms;

        match self.layout.get(&binding) {
            Some(entry) => Some(*entry),
            None => None,
        }
    }

    /// A layout has finitely many binding points.
    pub proof fn lemma_finite(&self)
        ensures
            self@.dom().finite(),
    {
        broadcast use vstd::std_specs::hash::group_hash_axioms;

    }

    /// The binding points of the layout, each once, in ascending order.
    pub fn bindings(&self) -> (bindings: Vec<u32>)
        ensures
            bindings@ == ascending_list(self@.dom()),
            ascending(bindings@),
            bindings@.to_set() == self@.dom(),
    {
        keys_of(&self.layout)
    }
}

/// A descriptor set. The context keeps what is bound to it; the handle itself
/// carries nothing.
#[derive(Debug, Clone, Copy, PartialEq, Eq, Structural)]
pub struct OpenGlDescriptorSet {}

/// A render pass. The backend renders to the default framebuffer only, so
/// the handle carries nothing.
#[derive(Debug, Clone, Copy, PartialEq, Eq, Structural)]
pub struct OpenGlRenderPass {}

} // verus!
