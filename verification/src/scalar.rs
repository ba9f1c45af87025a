//! Attribute scalars.
//!
//! Vertex attributes, transform components and mouse deltas are real numbers
//! on the GPU side, but the runtime itself never does arithmetic on them: it
//! only stores them, copies them into interleaved buffers, and compares them
//! for exact equality when welding vertices.  The library therefore carries
//! each 32-bit scalar as its IEEE-754 single-precision bit pattern and each
//! 64-bit scalar as its double-precision bit pattern, and leaves arithmetic
//! (matrix composition, normal generation) to the numeric collaborator that
//! drives it.

use vstd::prelude::*;

verus! {

/// Bits of +0.0.
pub const ZERO_BITS: u32 = 0x0000_0000;

/// Bits of 1.0.
pub const ONE_BITS: u32 = 0x3F80_0000;

/// Bits of -1.0.
pub const NEG_ONE_BITS: u32 = 0xBF80_0000;

/// Bits of 0.5.
pub const HALF_BITS: u32 = 0x3F00_0000;

/// Bits of -0.5.
pub const NEG_HALF_BITS: u32 = 0xBF00_0000;

/// Bits of 1.5.
pub const ONE_HALF_BITS: u32 = 0x3FC0_0000;

/// Bits of 2.0.
pub const TWO_BITS: u32 = 0x4000_0000;

/// Bits of 3.0.
pub const THREE_BITS: u32 = 0x4040_0000;

/// A single-precision value is a NaN when its exponent field is all ones and
/// its mantissa field is non-zero.
pub open spec fn spec_is_nan(bits: u32) -> bool {
    (bits >> 23u32) & 0xFF == 0xFF && bits & 0x007F_FFFF != 0
}

/// A single-precision value is a zero when everything but the sign bit is
/// clear; +0.0 and -0.0 are distinct patterns but equal values.
pub open spec fn spec_is_zero(bits: u32) -> bool {
    bits & 0x7FFF_FFFF == 0
}

/// Exact equality of two single-precision values, as the `==` of the source
/// numbers: NaN is equal to nothing, +0.0 equals -0.0, and any other pair is
/// equal exactly when the bit patterns coincide.
pub open spec fn spec_scalar_eq(a: u32, b: u32) -> bool {
    if spec_is_nan(a) || spec_is_nan(b) {
        false
    } else if spec_is_zero(a) && spec_is_zero(b) {
        true
    } else {
        a == b
    }
}

/// Whether `bits` encodes a NaN.
pub fn is_nan_bits(bits: u32) -> (r: bool)
    ensures
        r == spec_is_nan(bits),
{
    (bits >> 23u32) & 0xFF == 0xFF && bits & 0x007F_FFFF != 0
}

/// Whether `bits` encodes +0.0 or -0.0.
pub fn is_zero_bits(bits: u32) -> (r: bool)
    ensures
        r == spec_is_zero(bits),
{
    bits & 0x7FFF_FFFF == 0
}

/// Exact equality of two scalars, with the equality semantics of the encoded
/// real values rather than of the raw bits.
pub fn scalar_eq(a: u32, b: u32) -> (r: bool)
    ensures
        r == spec_scalar_eq(a, b),
{
    if is_nan_bits(a) || is_nan_bits(b) {
        false
    } else if is_zero_bits(a) && is_zero_bits(b) {
        true
    } else {
        a == b
    }
}

} // verus!
