//! Scalars, vectors and matrices as the buffers hold them.
//!
//! A real number is kept as its IEEE-754 single-precision bit pattern.
//! Equality on these types is equality of bit patterns.

use vstd::prelude::*;

verus! {

/// A single-precision real number, held as its IEEE-754 bit pattern.
#[derive(Clone, Copy, Debug, PartialEq, Eq, Structural)]
pub struct F32 {
    pub bits: u32,
}

impl F32 {
    /// The number whose bit pattern is `bits`.
    pub fn from_bits(bits: u32) -> (r: F32)
        ensures
            r.bits == bits,
    {
        F32 { bits }
    }

    /// The bit pattern of the number.
    pub fn to_bits(self) -> (bits: u32)
        ensures
            bits == self.bits,
    {
        self.bits
    }
}

/// A vector of two real components.
#[derive(Clone, Copy, Debug, PartialEq, Eq, Structural)]
pub struct Vec2 {
    pub x: F32,
    pub y: F32,
}

/// A vector of three real components.
#[derive(Clone, Copy, Debug, PartialEq, Eq, Structural)]
pub struct Vec3 {
    pub x: F32,
    pub y: F32,
    pub z: F32,
}

/// A vector of four real components.
#[derive(Clone, Copy, Debug, PartialEq, Eq, Structural)]
pub struct Vec4 {
    pub x: F32,
    pub y: F32,
    pub z: F32,
    pub w: F32,
}

/// A four by four matrix of real components, held by columns.
#[derive(Clone, Copy, Debug, PartialEq, Eq, Structural)]
pub struct Mat4 {
    pub x_axis: Vec4,
    pub y_axis: Vec4,
    pub z_axis: Vec4,
    pub w_axis: Vec4,
}

/// A vector of three unsigned integers: the corners of one triangle.
#[derive(Clone, Copy, Debug, PartialEq, Eq, Structural)]
pub struct UVec3 {
    pub x: u32,
    pub y: u32,
    pub z: u32,
}

impl Vec2 {
    pub fn new(x: F32, y: F32) -> (v: Vec2)
        ensures
            v == (Vec2 { x, y }),
    {
        Vec2 { x, y }
    }
}

impl Vec3 {
    pub fn new(x: F32, y: F32, z: F32) -> (v: Vec3)
        ensures
            v == (Vec3 { x, y, z }),
    {
        Vec3 { x, y, z }
    }
}

impl Vec4 {
    pub fn new(x: F32, y: F32, z: F32, w: F32) -> (v: Vec4)
        ensures
            v == (Vec4 { x, y, z, w }),
    {
        Vec4 { x, y, z, w }
    }
}

impl Mat4 {
    /// The matrix with the given columns.
    pub fn from_cols(x_axis: Vec4, y_axis: Vec4, z_axis: Vec4, w_axis: Vec4) -> (m: Mat4)
        ensures
            m == (Mat4 { x_axis, y_axis, z_axis, w_axis }),
    {
        Mat4 { x_axis, y_axis, z_axis, w_axis }
    }
}

impl UVec3 {
    pub fn new(x: u32, y: u32, z: u32) -> (v: UVec3)
        ensures
            v == (UVec3 { x, y, z }),
    {
        UVec3 { x, y, z }
    }
}

} // verus!
