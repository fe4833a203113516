//! Opaque 32-bit scalar parameters.
//!
//! The evaluation engine's real-valued parameters (strength, roughness,
//! lacunarity, and so on) travel through this crate as raw 32-bit patterns in
//! the IEEE single-precision encoding. The verified code stores, copies,
//! validates and transports these patterns; it never interprets them
//! numerically. A host that runs the numeric evaluation decodes them at the
//! boundary.

use vstd::prelude::*;

verus! {

/// Bit pattern of the real value one.
pub const ONE_BITS: u32 = 0x3F80_0000;

/// Bit pattern of the real value two.
pub const TWO_BITS: u32 = 0x4000_0000;

/// Bit pattern of the real value one half.
pub const HALF_BITS: u32 = 0x3F00_0000;

/// Bit pattern of the real value zero.
pub const ZERO_BITS: u32 = 0x0000_0000;

/// Bit pattern of the real value one hundred.
pub const HUNDRED_BITS: u32 = 0x42C8_0000;

/// Bit pattern of the real value minus one hundred.
pub const NEG_HUNDRED_BITS: u32 = 0xC2C8_0000;

/// A real-valued parameter, carried as its raw 32-bit pattern.
#[derive(Clone, Copy, Debug, PartialEq, Eq)]
pub struct ScalarBits {
    pub bits: u32,
}

impl ScalarBits {
    /// Wraps a raw 32-bit pattern.
    pub fn from_bits(bits: u32) -> (r: Self)
        ensures
            r.bits == bits,
    {
        ScalarBits { bits }
    }

    /// The pattern of the real value zero.
    pub fn zero() -> (r: Self)
        ensures
            r.bits == ZERO_BITS,
    {
        ScalarBits { bits: ZERO_BITS }
    }
}

/// A three-component vector of real-valued parameters, carried as raw bits.
#[derive(Clone, Copy, Debug, PartialEq, Eq)]
pub struct Vec3Bits {
    pub x: ScalarBits,
    pub y: ScalarBits,
    pub z: ScalarBits,
}

impl Vec3Bits {
    /// True when all three components carry the zero pattern.
    pub open spec fn is_zero(self) -> bool {
        self.x.bits == ZERO_BITS && self.y.bits == ZERO_BITS && self.z.bits == ZERO_BITS
    }

    /// The all-zero vector.
    pub fn zero() -> (r: Self)
        ensures
            r.is_zero(),
    {
        Vec3Bits { x: ScalarBits::zero(), y: ScalarBits::zero(), z: ScalarBits::zero() }
    }
}

} // verus!
