//! The element types that a vertex-buffer layout is made of.

use vstd::prelude::*;

verus! {

/// Scalar or vector type of one element of a vertex.
#[derive(Debug, Clone, Copy, PartialEq, Eq, Structural)]
pub enum Type {
    Float,
    Float2,
    Float3,
    Float4,
    Mat4,
    Int,
    Int2,
    Int3,
}

/// One element of a vertex: the number of its components, the size of one
/// component in bytes, the size of the whole element in bytes, and its type.
#[derive(Debug, Clone, Copy, PartialEq, Eq, Structural)]
pub struct TypeInfo(pub u8, pub usize, pub u64, pub Type);

impl TypeInfo {
    /// One float.
    pub fn float_1() -> (info: TypeInfo)
        ensures
            info == TypeInfo(1, 4, 4, Type::Float),
    {
        TypeInfo(1, 4, 4, Type::Float)
    }

    /// Two floats.
    pub fn float_2() -> (info: TypeInfo)
        ensures
            info == TypeInfo(2, 4, 8, Type::Float2),
    {
        TypeInfo(2, 4, 8, Type::Float2)
    }

    /// Three floats.
    pub fn float_3() -> (info: TypeInfo)
        ensures
            info == TypeInfo(3, 4, 12, Type::Float3),
    {
        TypeInfo(3, 4, 12, Type::Float3)
    }

    /// Four floats.
    pub fn float_4() -> (info: TypeInfo)
        ensures
            info == TypeInfo(4, 4, 16, Type::Float4),
    {
        TypeInfo(4, 4, 16, Type::Float4)
    }

    /// A matrix of four by four floats.
    pub fn mat_4() -> (info: TypeInfo)
        ensures
            info == TypeInfo(16, 4, 64, Type::Mat4),
    {
        TypeInfo(16, 4, 64, Type::Mat4)
    }

    /// One integer.
    pub fn int_1() -> (info: TypeInfo)
        ensures
            info == TypeInfo(1, 4, 4, Type::Int),
    {
        TypeInfo(1, 4, 4, Type::Int)
    }

    /// Two integers.
    pub fn int_2() -> (info: TypeInfo)
        ensures
            info == TypeInfo(2, 4, 8, Type::Int2),
    {
        TypeInfo(2, 4, 8, Type::Int2)
    }

    /// Three integers.
    pub fn int_3() -> (info: TypeInfo)
        ensures
            info == TypeInfo(3, 4, 12, Type::Int3),
    {
        TypeInfo(3, 4, 12, Type::Int3)
    }
}

} // verus!
