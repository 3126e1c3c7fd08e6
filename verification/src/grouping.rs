//! Splitting a list of vertex attributes into runs that share a binding.

use itertools::Itertools;
use vstd::prelude::*;
use crate::api::AttributeDescriptor;

verus! {

/// A run: a binding and the attributes, consecutive in the list they came
/// from, that name it.
pub type Run = (u16, Vec<AttributeDescriptor>);

/// The attributes of `runs`, one run after the other.
pub open spec fn concat_runs(runs: Seq<Run>) -> Seq<AttributeDescriptor>
    decreases runs.len(),
{
    if runs.len() == 0 {
        Seq::empty()
    } else {
        concat_runs(runs.drop_last()) + runs.last().1@
    }
}

/// Whether `runs` cuts `attrs` into its maximal runs of equal binding: the
/// runs put together give `attrs` back, no run is empty, every attribute of a
/// run has the run's binding, and neighbouring runs differ in their binding.
pub open spec fn is_runs_of(runs: Seq<Run>, attrs: Seq<AttributeDescriptor>) -> bool {
    &&& concat_runs(runs) == attrs
    &&& forall|i: int| 0 <= i < runs.len() ==> (#[trigger] runs[i]).1@.len() > 0
    &&& forall|i: int, j: int|
        0 <= i < runs.len() && 0 <= j < runs[i].1@.len() ==> (#[trigger] runs[i].1@[j]).binding
            == runs[i].0
    &&& forall|i: int| 0 < i < runs.len() ==> runs[i - 1].0 != (#[trigger] runs[i]).0
}

/// Cuts `attrs` into runs with `Itertools::chunk_by`, keyed by the binding.
///
/// Not proved: that the chunks which `chunk_by` hands out are the maximal
/// runs of consecutive attributes with equal binding, in their order, each
/// with its binding as the key.
#[verifier::external_body]
pub(crate) fn chunk_by_binding(attrs: &Vec<AttributeDescriptor>) -> (runs: Vec<Run>)
    ensures
        is_runs_of(runs@, attrs@),
{
    let chunks = attrs.iter().chunk_by(|d| d.binding);
    (&chunks).into_iter().map(|(binding, run)| (binding, run.copied().collect())).collect()
}

/// Putting runs together distributes over appending one list of runs to
/// another.
pub proof fn lemma_concat_runs_add(a: Seq<Run>, b: Seq<Run>)
    ensures
        concat_runs(a + b) == concat_runs(a) + concat_runs(b),
    decreases b.len(),
{
    if b.len() == 0 {
        assert(a + b =~= a);
        assert(concat_runs(a) + concat_runs(b) =~= concat_runs(a));
    } else {
        lemma_concat_runs_add(a, b.drop_last());
        assert((a + b).drop_last() =~= a + b.drop_last());
        assert((a + b).last() == b.last());
        assert(concat_runs(a + b) =~= concat_runs(a) + concat_runs(b));
    }
}

} // verus!
