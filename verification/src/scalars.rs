//! Scalar and small vector values.
//!
//! The editor never computes with shader scalars; it copies them between the
//! document, the renderer mirror and the GPU. Each scalar is therefore held
//! as the 32-bit pattern of the engine's single-precision value, and every
//! contract about scalars is exact bit-for-bit identity.

use vstd::prelude::*;

verus! {

/// A shader scalar, held as the bit pattern of a single-precision value.
pub type Scalar = u32;

/// Bit pattern of the scalar one in single-precision form; used as the alpha
/// channel when a three-component color is widened to four components.
pub const SCALAR_ONE: u32 = 0x3F80_0000;

/// A two-component vector (for example a wave direction).
#[derive(Clone, Copy, Debug, PartialEq, Eq, Structural)]
pub struct Vector2 {
    pub x: Scalar,
    pub y: Scalar,
}

/// A three-component vector (positions, rotations, scales, color inputs).
#[derive(Clone, Copy, Debug, PartialEq, Eq, Structural)]
pub struct Vector3 {
    pub x: Scalar,
    pub y: Scalar,
    pub z: Scalar,
}

/// A four-component color as stored in shader uniforms.
#[derive(Clone, Copy, Debug, PartialEq, Eq, Structural)]
pub struct Color4 {
    pub r: Scalar,
    pub g: Scalar,
    pub b: Scalar,
    pub a: Scalar,
}

impl Color4 {
    /// What a three-component color becomes when widened with a unit alpha.
    pub open spec fn opaque_spec(v: Vector3) -> Color4 {
        Color4 { r: v.x, g: v.y, b: v.z, a: SCALAR_ONE }
    }

    /// Widens a three-component color with a unit alpha channel.
    pub fn opaque(v: Vector3) -> (c: Color4)
        ensures
            c == Color4::opaque_spec(v),
    {
        Color4 { r: v.x, g: v.y, b: v.z, a: SCALAR_ONE }
    }

    /// The all-zero color.
    pub fn zero() -> (c: Color4)
        ensures
            c == (Color4 { r: 0u32, g: 0u32, b: 0u32, a: 0u32 }),
    {
        Color4 { r: 0, g: 0, b: 0, a: 0 }
    }
}

} // verus!
