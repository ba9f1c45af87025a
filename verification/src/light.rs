//! The light source.
//!
//! A single point light per storage manager: a world position and an RGB
//! colour.  Moving the light along a rotation arc is quaternion arithmetic
//! and belongs to the numeric collaborator, which writes the new position
//! back through the storage manager.

use vstd::prelude::*;

use crate::scalar::ONE_BITS;
use crate::scalar::ONE_HALF_BITS;
use crate::scalar::TWO_BITS;
use crate::transform::Vec3;

verus! {

/// A point light: world position and RGB colour.
#[derive(Debug, Copy, Clone, PartialEq, Eq, Structural)]
pub struct Light {
    pub position: Vec3,
    pub color: Vec3,
}

impl Light {
    pub fn new(x: u32, y: u32, z: u32, r: u32, g: u32, b: u32) -> (l: Light)
        ensures
            l.position == (Vec3 { x, y, z }),
            l.color == (Vec3 { x: r, y: g, z: b }),
    {
        Light { position: Vec3::new(x, y, z), color: Vec3::new(r, g, b) }
    }

    /// The starting light: white, placed above and beside the origin.
    pub fn default() -> (l: Light)
        ensures
            l.position == (Vec3 { x: ONE_BITS, y: ONE_HALF_BITS, z: TWO_BITS }),
            l.color == (Vec3 { x: ONE_BITS, y: ONE_BITS, z: ONE_BITS }),
    {
        Light::new(ONE_BITS, ONE_HALF_BITS, TWO_BITS, ONE_BITS, ONE_BITS, ONE_BITS)
    }
}

} // verus!
