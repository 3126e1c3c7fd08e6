//! The layout of the elements of one vertex inside a vertex buffer.

use vstd::prelude::*;
use crate::glenum;
use crate::shared_types::{Type, TypeInfo};

verus! {

/// The sizes in bytes of `elements`, added up.
pub open spec fn total_bytes(elements: Seq<TypeInfo>) -> int
    decreases elements.len(),
{
    if elements.len() == 0 {
        0
    } else {
        total_bytes(elements.drop_last()) + elements.last().2
    }
}

/// A size is never negative.
pub proof fn lemma_total_bytes_nonnegative(elements: Seq<TypeInfo>)
    ensures
        0 <= total_bytes(elements),
    decreases elements.len(),
{
    if elements.len() > 0 {
        lemma_total_bytes_nonnegative(elements.drop_last());
    }
}

/// Leaving elements off the end never adds bytes.
pub proof fn lemma_total_bytes_grows(elements: Seq<TypeInfo>, n: int)
    requires
        0 <= n <= elements.len(),
    ensures
        0 <= total_bytes(elements.take(n)) <= total_bytes(elements),
    decreases elements.len() - n,
{
    lemma_total_bytes_nonnegative(elements.take(n));
    if n == elements.len() {
        assert(elements.take(n) =~= elements);
    } else {
        lemma_total_bytes_grows(elements, n + 1);
        assert(elements.take(n + 1).drop_last() =~= elements.take(n));
    }
}

/// The scalar type under which the context reads an element type.
pub open spec fn scalar_type(t: Type) -> u32 {
    match t {
        Type::Int | Type::Int2 | Type::Int3 => glenum::INT,
        _ => glenum::FLOAT,
    }
}

/// Computes [`scalar_type`].
pub fn to_gl_type(t: &Type) -> (scalar: u32)
    ensures
        scalar == scalar_type(*t),
{
    match t {
        Type::Float => glenum::FLOAT,
        Type::Float2 => glenum::FLOAT,
        Type::Float3 => glenum::FLOAT,
        Type::Float4 => glenum::FLOAT,
        Type::Mat4 => glenum::FLOAT,
        Type::Int => glenum::INT,
        Type::Int2 => glenum::INT,
        Type::Int3 => glenum::INT,
    }
}

/// The elements of one vertex, in the order they lie in the buffer.
#[derive(Debug, Clone, PartialEq, Eq)]
pub struct BufferLayout {
    elements: Vec<TypeInfo>,
}

impl View for BufferLayout {
    type V = Seq<TypeInfo>;

    closed spec fn view(&self) -> Seq<TypeInfo> {
        self.elements@
    }
}

impl BufferLayout {
    /// A layout of one element.
    pub fn with(element: TypeInfo) -> (layout: Self)
        ensures
            layout@ == seq![element],
    {
        let mut layout = BufferLayout { elements: Vec::new() };
        layout.elements.push(element);
        layout
    }

    /// The layout with `element` added at its end.
    pub fn and(self, element: TypeInfo) -> (layout: Self)
        ensures
            layout@ == self@.push(element),
    {
        let mut layout = self;
        layout.elements.push(element);
        layout
    }

    /// The elements, in their order.
    pub fn elements(&self) -> (elements: &Vec<TypeInfo>)
        ensures
            elements@ == self@,
    {
        &self.elements
    }

    /// The size of one vertex in bytes, or `None` where it does not fit the
    /// result type.
    pub fn checked_stride(&self) -> (stride: Option<u64>)
        ensures
            stride == if total_bytes(self@) <= u64::MAX {
                Some(total_bytes(self@) as u64)
            } else {
                None
            },
    {
        let mut sum: u64 = 0;
        let mut i: usize = 0;
        proof {
            lemma_total_bytes_nonnegative(self@);
        }
        while i < self.elements.len()
            invariant
                i <= self.elements.len(),
                sum == total_bytes(self@.take(i as int)),
            decreases self.elements.len() - i,
        {
            proof {
                assert(self@.take(i + 1).drop_last() =~= self@.take(i as int));
            }
            match sum.checked_add(self.elements[i].2) {
                Some(next) => {
                    sum = next;
                },
                None => {
                    proof {
                        lemma_total_bytes_grows(self@, i + 1);
                    }
                    return None;
                },
            }
            i += 1;
        }
        proof {
            assert(self@.take(self.elements.len() as int) =~= self@);
        }
        Some(sum)
    }

    /// The size of one vertex in bytes: the sizes of its elements added up.
    pub fn stride(&self) -> (stride: u64)
        requires
            total_bytes(self@) <= u64::MAX,
        ensures
            stride == total_bytes(self@),
    {
        proof {
            lemma_total_bytes_nonnegative(self@);
        }
        match self.checked_stride() {
            Some(stride) => stride,
            None => 0,
        }
    }
}

} // verus!
