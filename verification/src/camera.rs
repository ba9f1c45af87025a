//! The viewpoint.
//!
//! A single camera per storage manager: a world position and a look
//! direction.  The view matrix is derived from these two vectors by the
//! numeric collaborator when a frame's draw calls are assembled.

use vstd::prelude::*;

use crate::scalar::HALF_BITS;
use crate::scalar::NEG_ONE_BITS;
use crate::scalar::THREE_BITS;
use crate::scalar::ZERO_BITS;
use crate::transform::Vec3;

verus! {

/// A world position and a look direction.
#[derive(Debug, Copy, Clone, PartialEq, Eq, Structural)]
pub struct Camera {
    pub position: Vec3,
    pub direction: Vec3,
}

impl Camera {
    pub fn new(pos: Vec3, dir: Vec3) -> (c: Camera)
        ensures
            c == (Camera { position: pos, direction: dir }),
    {
        Camera { position: pos, direction: dir }
    }

    /// The starting viewpoint: slightly above and in front of the origin,
    /// looking down the negative Z axis.
    pub fn default() -> (c: Camera)
        ensures
            c.position == (Vec3 { x: HALF_BITS, y: HALF_BITS, z: THREE_BITS }),
            c.direction == (Vec3 { x: ZERO_BITS, y: ZERO_BITS, z: NEG_ONE_BITS }),
    {
        Camera {
            position: Vec3::new(HALF_BITS, HALF_BITS, THREE_BITS),
            direction: Vec3::new(ZERO_BITS, ZERO_BITS, NEG_ONE_BITS),
        }
    }
}

} // verus!
