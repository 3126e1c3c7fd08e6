//! Image dimensions.

use vstd::prelude::*;

verus! {

/// Extent of an image along one axis, in texels.
pub type Size = u32;

/// Mipmap level.
pub type Level = u16;

/// Dimensionality and extent of an image.
#[derive(Debug, Clone, Copy, PartialEq, Eq, Structural)]
pub enum Kind {
    D1(Size, Level),
    D2(Size, Size, Level),
    D3(Size, Size, Size),
}

} // verus!
