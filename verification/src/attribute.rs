//! From a declared vertex attribute to the attribute-pointer set-up that the
//! context needs, and the check of declared attributes against what a linked
//! program reports.

use vstd::prelude::*;
use crate::api::{AttributeDescriptor, DataType};
use crate::context::GlCall;
use crate::glenum;

verus! {

/// Size in bytes of one matrix column: four single-precision components.
pub const COLUMN_BYTES: usize = 16;

/// An attribute as a linked program reports it: its location, its type and
/// its array size.
pub type ActiveAttribute = (i32, u32, i32);

/// What went wrong while a pipeline was built.
#[derive(Debug, Clone, PartialEq, Eq)]
pub enum PipelineError {
    /// The program did not link. Carries the info log of the context.
    Link(String),
    /// The linked program has no attribute at the declared location.
    AttributeNotFound(AttributeDescriptor),
    /// The linked program has an attribute at the declared location, but of
    /// another type or array size.
    AttributeMismatch(AttributeDescriptor),
    /// The locations or byte offsets of the matrix columns leave the range of
    /// their types.
    AttributeOutOfRange(AttributeDescriptor),
    /// An attribute reads from a binding that no vertex buffer was declared
    /// for.
    BindingNotFound(u16),
    /// The binding point resolves to no uniform block of the program.
    InvalidBlockIndex(u32),
}

/// Number of components that one attribute-pointer of the type carries.
pub open spec fn components(data_type: DataType) -> u8 {
    match data_type {
        DataType::Vec3f32 => 3,
        DataType::Vec2f32 => 2,
        DataType::Mat4f32 => 4,
    }
}

/// The type under which a linked program reports an attribute of the type.
pub open spec fn reported_type(data_type: DataType) -> u32 {
    match data_type {
        DataType::Vec3f32 => glenum::FLOAT_VEC3,
        DataType::Vec2f32 => glenum::FLOAT_VEC2,
        DataType::Mat4f32 => glenum::FLOAT_MAT4,
    }
}

/// Whether the attribute can be set up without leaving the range of a
/// location or of a byte offset: a matrix takes the three locations after
/// its own and three more columns after its offset.
pub open spec fn in_range(attr: AttributeDescriptor) -> bool {
    attr.data.data_type is Mat4f32 ==> attr.location + 3 <= u32::MAX && attr.data.offset + 3
        * COLUMN_BYTES <= usize::MAX
}

/// Points `location` at floats found `offset` bytes into each element of the
/// bound buffer, `stride` bytes apart, and enables the location.
pub open spec fn pointer_calls(stride: usize, data_type: DataType, offset: usize, location: u32) -> Seq<
    GlCall,
> {
    seq![
        GlCall::VertexAttribPointer {
            location,
            components: components(data_type),
            scalar: glenum::FLOAT,
            normalized: false,
            stride,
            offset,
        },
        GlCall::EnableVertexAttribArray { location },
    ]
}

/// The set-up of column `k` of a matrix attribute: one location and one
/// column's worth of bytes further on for each column before it.
pub open spec fn column_calls(stride: usize, attr: AttributeDescriptor, k: int) -> Seq<GlCall> {
    pointer_calls(
        stride,
        attr.data.data_type,
        (attr.data.offset + k * COLUMN_BYTES) as usize,
        (attr.location + k) as u32,
    )
}

/// Makes column `k` of a matrix attribute advance once per instance.
pub open spec fn divisor_call(attr: AttributeDescriptor, k: int) -> GlCall {
    GlCall::VertexAttribDivisor { location: (attr.location + k) as u32, divisor: 1 }
}

/// The calls that set one attribute up for a buffer with the given stride.
/// A vector takes one pointer at its own location. A matrix takes four, one
/// per column at consecutive locations, and each of them advances per
/// instance.
pub open spec fn attribute_calls(stride: usize, attr: AttributeDescriptor) -> Seq<GlCall> {
    match attr.data.data_type {
        DataType::Mat4f32 => column_calls(stride, attr, 0) + column_calls(stride, attr, 1)
            + column_calls(stride, attr, 2) + column_calls(stride, attr, 3) + seq![
            divisor_call(attr, 0),
            divisor_call(attr, 1),
            divisor_call(attr, 2),
            divisor_call(attr, 3),
        ],
        _ => pointer_calls(stride, attr.data.data_type, attr.data.offset, attr.location),
    }
}

/// The calls that set up `attrs`, one attribute after the other.
pub open spec fn attributes_calls(stride: usize, attrs: Seq<AttributeDescriptor>) -> Seq<GlCall>
    decreases attrs.len(),
{
    if attrs.len() == 0 {
        Seq::empty()
    } else {
        attributes_calls(stride, attrs.drop_last()) + attribute_calls(stride, attrs.last())
    }
}

/// The first of `gl_attrs` that sits at `location`.
pub open spec fn reported_at(gl_attrs: Seq<ActiveAttribute>, location: u32) -> Option<ActiveAttribute>
    decreases gl_attrs.len(),
{
    if gl_attrs.len() == 0 {
        None
    } else if gl_attrs[0].0 == location {
        Some(gl_attrs[0])
    } else {
        reported_at(gl_attrs.drop_first(), location)
    }
}

/// What is wrong with `attr` in a program that reports `gl_attrs`, if
/// anything: no attribute at its location; one of another type, or an array;
/// or a matrix that leaves the range of locations or offsets.
pub open spec fn attribute_fault(attr: AttributeDescriptor, gl_attrs: Seq<ActiveAttribute>) -> Option<
    PipelineError,
> {
    match reported_at(gl_attrs, attr.location) {
        None => Some(PipelineError::AttributeNotFound(attr)),
        Some(found) => if found.1 != reported_type(attr.data.data_type) || found.2 != 1 {
            Some(PipelineError::AttributeMismatch(attr))
        } else if !in_range(attr) {
            Some(PipelineError::AttributeOutOfRange(attr))
        } else {
            None
        },
    }
}

/// The fault of the first of `attrs` that has one.
pub open spec fn first_fault(attrs: Seq<AttributeDescriptor>, gl_attrs: Seq<ActiveAttribute>) -> Option<
    PipelineError,
>
    decreases attrs.len(),
{
    if attrs.len() == 0 {
        None
    } else {
        match first_fault(attrs.drop_last(), gl_attrs) {
            Some(e) => Some(e),
            None => attribute_fault(attrs.last(), gl_attrs),
        }
    }
}

/// The attribute pointer of column `k` of a matrix attribute, with location
/// and offset as plain numbers.
pub open spec fn column_pointer(stride: usize, attr: AttributeDescriptor, k: nat) -> GlCall {
    GlCall::VertexAttribPointer {
        location: (attr.location + k) as u32,
        components: 4,
        scalar: glenum::FLOAT,
        normalized: false,
        stride,
        offset: (attr.data.offset + k * 16) as usize,
    }
}

/// A matrix attribute at location `L` and offset `O` is set up by exactly
/// four attribute pointers, at the locations `L` to `L + 3` and the offsets
/// `O`, `O + 16`, `O + 32` and `O + 48`, each enabled and each advancing once
/// per instance. None of these locations or offsets wraps around.
pub proof fn lemma_matrix_expansion(stride: usize, attr: AttributeDescriptor)
    requires
        attr.data.data_type is Mat4f32,
        in_range(attr),
    ensures
        attribute_calls(stride, attr) == seq![
            column_pointer(stride, attr, 0),
            GlCall::EnableVertexAttribArray { location: attr.location },
            column_pointer(stride, attr, 1),
            GlCall::EnableVertexAttribArray { location: (attr.location + 1) as u32 },
            column_pointer(stride, attr, 2),
            GlCall::EnableVertexAttribArray { location: (attr.location + 2) as u32 },
            column_pointer(stride, attr, 3),
            GlCall::EnableVertexAttribArray { location: (attr.location + 3) as u32 },
            GlCall::VertexAttribDivisor { location: attr.location, divisor: 1 },
            GlCall::VertexAttribDivisor { location: (attr.location + 1) as u32, divisor: 1 },
            GlCall::VertexAttribDivisor { location: (attr.location + 2) as u32, divisor: 1 },
            GlCall::VertexAttribDivisor { location: (attr.location + 3) as u32, divisor: 1 },
        ],
        (attr.location + 3) as u32 == attr.location + 3,
        (attr.data.offset + 3 * 16) as usize == attr.data.offset + 48,
{
    assert(attribute_calls(stride, attr) =~= seq![
        column_pointer(stride, attr, 0),
        GlCall::EnableVertexAttribArray { location: attr.location },
        column_pointer(stride, attr, 1),
        GlCall::EnableVertexAttribArray { location: (attr.location + 1) as u32 },
        column_pointer(stride, attr, 2),
        GlCall::EnableVertexAttribArray { location: (attr.location + 2) as u32 },
        column_pointer(stride, attr, 3),
        GlCall::EnableVertexAttribArray { location: (attr.location + 3) as u32 },
        GlCall::VertexAttribDivisor { location: attr.location, divisor: 1 },
        GlCall::VertexAttribDivisor { location: (attr.location + 1) as u32, divisor: 1 },
        GlCall::VertexAttribDivisor { location: (attr.location + 2) as u32, divisor: 1 },
        GlCall::VertexAttribDivisor { location: (attr.location + 3) as u32, divisor: 1 },
    ]);
}

/// A vector attribute is set up by one attribute pointer at its own location
/// and offset, and advances per vertex.
pub proof fn lemma_vector_setup(stride: usize, attr: AttributeDescriptor)
    requires
        !(attr.data.data_type is Mat4f32),
    ensures
        attribute_calls(stride, attr) == seq![
            GlCall::VertexAttribPointer {
                location: attr.location,
                components: components(attr.data.data_type),
                scalar: glenum::FLOAT,
                normalized: false,
                stride,
                offset: attr.data.offset,
            },
            GlCall::EnableVertexAttribArray { location: attr.location },
        ],
{
}

/// Computes [`components`].
pub fn component_count(data_type: DataType) -> (n: u8)
    ensures
        n == components(data_type),
{
    match data_type {
        DataType::Vec3f32 => 3,
        DataType::Vec2f32 => 2,
        DataType::Mat4f32 => 4,
    }
}

/// Appends [`pointer_calls`] to `calls`.
pub fn vertex_pointer(
    calls: &mut Vec<GlCall>,
    stride: usize,
    attr: &AttributeDescriptor,
    offset: usize,
    location: u32,
)
    ensures
        final(calls)@ == old(calls)@ + pointer_calls(stride, attr.data.data_type, offset, location),
{
    calls.push(
        GlCall::VertexAttribPointer {
            location,
            components: component_count(attr.data.data_type),
            scalar: glenum::FLOAT,
            normalized: false,
            stride,
            offset,
        },
    );
    calls.push(GlCall::EnableVertexAttribArray { location });
    proof {
        assert(calls@ =~= old(calls)@ + pointer_calls(
            stride,
            attr.data.data_type,
            offset,
            location,
        ));
    }
}

/// Appends [`attribute_calls`] to `calls`.
pub fn attribute_pointers(calls: &mut Vec<GlCall>, stride: usize, attr: &AttributeDescriptor)
    requires
        in_range(*attr),
    ensures
        final(calls)@ == old(calls)@ + attribute_calls(stride, *attr),
{
    match attr.data.data_type {
        DataType::Vec3f32 => {
            vertex_pointer(calls, stride, attr, attr.data.offset, attr.location);
        },
        DataType::Vec2f32 => {
            vertex_pointer(calls, stride, attr, attr.data.offset, attr.location);
        },
        DataType::Mat4f32 => {
            let ghost before = calls@;
            vertex_pointer(calls, stride, attr, attr.data.offset, attr.location);
            vertex_pointer(
                calls,
                stride,
                attr,
                attr.data.offset + COLUMN_BYTES,
                attr.location + 1,
            );
            vertex_pointer(
                calls,
                stride,
                attr,
                attr.data.offset + COLUMN_BYTES * 2,
                attr.location + 2,
            );
            vertex_pointer(
                calls,
                stride,
                attr,
                attr.data.offset + COLUMN_BYTES * 3,
                attr.location + 3,
            );
            calls.push(GlCall::VertexAttribDivisor { location: attr.location, divisor: 1 });
            calls.push(GlCall::VertexAttribDivisor { location: attr.location + 1, divisor: 1 });
            calls.push(GlCall::VertexAttribDivisor { location: attr.location + 2, divisor: 1 });
            calls.push(GlCall::VertexAttribDivisor { location: attr.location + 3, divisor: 1 });
            proof {
                assert(calls@ =~= before + attribute_calls(stride, *attr));
            }
        },
    }
}

/// The attribute that the program reports at the location of `attr`: the
/// first of `gl_attrs` with that location, or the error that there is none.
pub fn get_attr(attr: &AttributeDescriptor, gl_attrs: &Vec<ActiveAttribute>) -> (res: Result<
    ActiveAttribute,
    PipelineError,
>)
    ensures
        match reported_at(gl_attrs@, attr.location) {
            Some(found) => res == Ok::<ActiveAttribute, PipelineError>(found),
            None => res == Err::<ActiveAttribute, PipelineError>(
                PipelineError::AttributeNotFound(*attr),
            ),
        },
{
    let mut i: usize = 0;
    proof {
        assert(gl_attrs@.skip(0) =~= gl_attrs@);
    }
    while i < gl_attrs.len()
        invariant
            i <= gl_attrs.len(),
            reported_at(gl_attrs@, attr.location) == reported_at(
                gl_attrs@.skip(i as int),
                attr.location,
            ),
        decreases gl_attrs.len() - i,
    {
        let gl_attr = gl_attrs[i];
        if gl_attr.0 >= 0 && gl_attr.0 as u32 == attr.location {
            return Ok(gl_attr);
        }
        proof {
            assert(gl_attrs@.skip(i as int).drop_first() =~= gl_attrs@.skip(i + 1));
        }
        i += 1;
    }
    Err(PipelineError::AttributeNotFound(*attr))
}

/// Whether the matrix columns of `attr` stay in range. Computes
/// [`in_range`].
pub fn fits(attr: &AttributeDescriptor) -> (ok: bool)
    ensures
        ok == in_range(*attr),
{
    match attr.data.data_type {
        DataType::Mat4f32 => attr.location <= u32::MAX - 3 && attr.data.offset <= usize::MAX - 3
            * COLUMN_BYTES,
        _ => true,
    }
}

/// Checks one declared attribute against the program. Computes
/// [`attribute_fault`].
pub fn validate_attr(attr: &AttributeDescriptor, gl_attrs: &Vec<ActiveAttribute>) -> (res: Result<
    (),
    PipelineError,
>)
    ensures
        match attribute_fault(*attr, gl_attrs@) {
            Some(e) => res == Err::<(), PipelineError>(e),
            None => res is Ok,
        },
{
    let found = match get_attr(attr, gl_attrs) {
        Ok(found) => found,
        Err(e) => {
            return Err(e);
        },
    };
    let expected: u32 = match attr.data.data_type {
        DataType::Vec3f32 => glenum::FLOAT_VEC3,
        DataType::Vec2f32 => glenum::FLOAT_VEC2,
        DataType::Mat4f32 => glenum::FLOAT_MAT4,
    };
    if found.1 != expected || found.2 != 1 {
        return Err(PipelineError::AttributeMismatch(*attr));
    }
    if !fits(attr) {
        return Err(PipelineError::AttributeOutOfRange(*attr));
    }
    Ok(())
}

/// Checks the declared attributes, in their order, against the attributes
/// that the linked program `id` reports. Returns `id` when none is at fault,
/// else the fault of the first that has one.
pub fn validate_attrs(id: u32, attrs: &Vec<AttributeDescriptor>, gl_attrs: &Vec<ActiveAttribute>) -> (res:
    Result<u32, PipelineError>)
    ensures
        match first_fault(attrs@, gl_attrs@) {
            Some(e) => res == Err::<u32, PipelineError>(e),
            None => res == Ok::<u32, PipelineError>(id),
        },
{
    let mut i: usize = 0;
    while i < attrs.len()
        invariant
            i <= attrs.len(),
            first_fault(attrs@.take(i as int), gl_attrs@) is None,
        decreases attrs.len() - i,
    {
        proof {
            assert(attrs@.take(i + 1).drop_last() =~= attrs@.take(i as int));
        }
        match validate_attr(&attrs[i], gl_attrs) {
            Ok(_) => {},
            Err(e) => {
                proof {
                    lemma_fault_stays(attrs@, gl_attrs@, i + 1);
                }
                return Err(e);
            },
        }
        i += 1;
    }
    proof {
        assert(attrs@.take(attrs.len() as int) =~= attrs@);
    }
    Ok(id)
}

/// A fault among the first `n` attributes is the fault of the whole list.
pub proof fn lemma_fault_stays(
    attrs: Seq<AttributeDescriptor>,
    gl_attrs: Seq<ActiveAttribute>,
    n: int,
)
    requires
        0 <= n <= attrs.len(),
        first_fault(attrs.take(n), gl_attrs) is Some,
    ensures
        first_fault(attrs, gl_attrs) == first_fault(attrs.take(n), gl_attrs),
    decreases attrs.len() - n,
{
    if n == attrs.len() {
        assert(attrs.take(n) =~= attrs);
    } else {
        assert(attrs.take(n + 1).drop_last() =~= attrs.take(n));
        lemma_fault_stays(attrs, gl_attrs, n + 1);
    }
}

/// Where no declared attribute is at fault, each of them is in range.
pub proof fn lemma_faultless_in_range(
    attrs: Seq<AttributeDescriptor>,
    gl_attrs: Seq<ActiveAttribute>,
)
    requires
        first_fault(attrs, gl_attrs) is None,
    ensures
        forall|i: int| 0 <= i < attrs.len() ==> in_range(#[trigger] attrs[i]),
    decreases attrs.len(),
{
    if attrs.len() > 0 {
        lemma_faultless_in_range(attrs.drop_last(), gl_attrs);
        assert forall|i: int| 0 <= i < attrs.len() implies in_range(#[trigger] attrs[i]) by {
            if i < attrs.len() - 1 {
                assert(attrs.drop_last()[i] == attrs[i]);
            }
        }
    }
}

} // verus!
