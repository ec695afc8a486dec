//! Numbers and small vectors as the formats store them.
use vstd::prelude::*;

verus! {

/// An IEEE 754 single-precision number, held as its 32 bits. The decoders
/// move such numbers and never compute with them.
#[derive(Clone, Copy, Debug, PartialEq, Eq, Structural, Hash)]
pub struct F32 {
    pub bits: u32,
}

impl DeepView for F32 {
    type V = F32;

    open spec fn deep_view(&self) -> F32 {
        *self
    }
}

#[derive(Clone, Copy, Debug, PartialEq, Eq, Structural, Hash)]
pub struct Vector2 {
    pub x: F32,
    pub y: F32,
}

impl DeepView for Vector2 {
    type V = Vector2;

    open spec fn deep_view(&self) -> Vector2 {
        *self
    }
}

#[derive(Clone, Copy, Debug, PartialEq, Eq, Structural, Hash)]
pub struct Vector3 {
    pub x: F32,
    pub y: F32,
    pub z: F32,
}

impl DeepView for Vector3 {
    type V = Vector3;

    open spec fn deep_view(&self) -> Vector3 {
        *self
    }
}

#[derive(Clone, Copy, Debug, PartialEq, Eq, Structural, Hash)]
pub struct Vector4 {
    pub x: F32,
    pub y: F32,
    pub z: F32,
    pub w: F32,
}

impl DeepView for Vector4 {
    type V = Vector4;

    open spec fn deep_view(&self) -> Vector4 {
        *self
    }
}

/// A 4x4 matrix stored row by row: `x` is the first row.
#[derive(Clone, Copy, Debug, PartialEq, Eq, Structural, Hash)]
pub struct RowMatrix4 {
    pub x: Vector4,
    pub y: Vector4,
    pub z: Vector4,
    pub w: Vector4,
}

impl DeepView for RowMatrix4 {
    type V = RowMatrix4;

    open spec fn deep_view(&self) -> RowMatrix4 {
        *self
    }
}

} // verus!
