//! Spatial transforms.
//!
//! A transform holds a translation, Euler rotation angles in degrees around
//! the X, Y and Z axes, and a non-uniform scale, together with a cached local
//! matrix.  The matrix is derived state: the numeric collaborator composes
//! translate, rotate and scale (in that order) each frame and hands the
//! result back through `set_local_transform`; until then the cache holds the
//! previously stored matrix.

use vstd::prelude::*;

use crate::scalar::ONE_BITS;
use crate::scalar::ZERO_BITS;

verus! {

/// A three-component vector; components are single-precision bit patterns.
#[derive(Debug, Copy, Clone, PartialEq, Eq, Structural)]
pub struct Vec3 {
    pub x: u32,
    pub y: u32,
    pub z: u32,
}

impl Vec3 {
    pub fn new(x: u32, y: u32, z: u32) -> (v: Vec3)
        ensures
            v == (Vec3 { x, y, z }),
    {
        Vec3 { x, y, z }
    }
}

/// The zero vector.
pub open spec fn vec3_zero() -> Vec3 {
    Vec3 { x: ZERO_BITS, y: ZERO_BITS, z: ZERO_BITS }
}

/// The all-ones vector.
pub open spec fn vec3_one() -> Vec3 {
    Vec3 { x: ONE_BITS, y: ONE_BITS, z: ONE_BITS }
}

/// A 4x4 matrix in column-major order; entries are single-precision bit
/// patterns.
#[derive(Debug, Copy, Clone, PartialEq, Eq)]
pub struct Mat4 {
    pub data: [u32; 16],
}

/// The identity matrix.
pub open spec fn spec_identity() -> Seq<u32> {
    seq![
        ONE_BITS,
        ZERO_BITS,
        ZERO_BITS,
        ZERO_BITS,
        ZERO_BITS,
        ONE_BITS,
        ZERO_BITS,
        ZERO_BITS,
        ZERO_BITS,
        ZERO_BITS,
        ONE_BITS,
        ZERO_BITS,
        ZERO_BITS,
        ZERO_BITS,
        ZERO_BITS,
        ONE_BITS,
    ]
}

impl Mat4 {
    pub fn new_identity() -> (m: Mat4)
        ensures
            m.data@ == spec_identity(),
    {
        let m = Mat4 {
            data: [
                ONE_BITS,
                ZERO_BITS,
                ZERO_BITS,
                ZERO_BITS,
                ZERO_BITS,
                ONE_BITS,
                ZERO_BITS,
                ZERO_BITS,
                ZERO_BITS,
                ZERO_BITS,
                ONE_BITS,
                ZERO_BITS,
                ZERO_BITS,
                ZERO_BITS,
                ZERO_BITS,
                ONE_BITS,
            ],
        };
        proof {
            assert(m.data@ =~= spec_identity());
        }
        m
    }
}

/// A displacement along the three axes; components are single-precision bit
/// patterns.
#[derive(Debug, Copy, Clone, PartialEq, Eq, Structural)]
pub struct Translation {
    pub x: u32,
    pub y: u32,
    pub z: u32,
}

/// Translation, Euler rotation in degrees, non-uniform scale, and the cached
/// local matrix derived from them.
#[derive(Debug, Copy, Clone, PartialEq)]
pub struct Transform {
    pub translation: Vec3,
    pub rotation: Vec3,
    pub scale: Vec3,
    pub local_transform: Mat4,
}

impl Transform {
    pub fn new(trans: Vec3, rotation: Vec3, scale: Vec3) -> (t: Transform)
        ensures
            t.translation == trans,
            t.rotation == rotation,
            t.scale == scale,
            t.local_transform.data@ == spec_identity(),
    {
        Transform { translation: trans, rotation, scale, local_transform: Mat4::new_identity() }
    }

    /// The identity transform: no displacement, no rotation, unit scale.
    pub fn new_default() -> (t: Transform)
        ensures
            t.translation == vec3_zero(),
            t.rotation == vec3_zero(),
            t.scale == vec3_one(),
            t.local_transform.data@ == spec_identity(),
    {
        Transform {
            translation: Vec3::new(ZERO_BITS, ZERO_BITS, ZERO_BITS),
            rotation: Vec3::new(ZERO_BITS, ZERO_BITS, ZERO_BITS),
            scale: Vec3::new(ONE_BITS, ONE_BITS, ONE_BITS),
            local_transform: Mat4::new_identity(),
        }
    }

    /// Stores the matrix the numeric collaborator composed from this
    /// transform's translation, rotation and scale.
    pub fn set_local_transform(&mut self, m: Mat4)
        ensures
            final(self).local_transform == m,
            final(self).translation == old(self).translation,
            final(self).rotation == old(self).rotation,
            final(self).scale == old(self).scale,
    {
        self.local_transform = m;
    }
}

} // verus!
