//! Materials and GPU program handles.
//!
//! Shader compilation, texture decoding and uniform binding are work of the
//! graphics collaborator; the library stores the integer handles it hands
//! back.  A material pairs a shader handle with a texture handle and is
//! immutable once constructed: to change either, build a new material.

use vstd::prelude::*;

verus! {

/// A linked GPU program, by the handle the graphics collaborator assigned.
#[derive(Debug, Copy, Clone, PartialEq, Eq, Structural)]
pub struct Shader {
    pub id: u32,
}

impl Shader {
    pub fn new(id: u32) -> (s: Shader)
        ensures
            s == (Shader { id }),
    {
        Shader { id }
    }
}

/// A GPU-resident texture, by the handle the graphics collaborator assigned.
#[derive(Debug, Copy, Clone, PartialEq, Eq, Structural)]
pub struct Texture {
    pub id: u32,
}

impl Texture {
    pub fn new(id: u32) -> (t: Texture)
        ensures
            t == (Texture { id }),
    {
        Texture { id }
    }
}

/// A shader handle plus a texture handle; immutable once constructed.
#[derive(Debug, Copy, Clone, PartialEq, Eq, Structural)]
pub struct Material {
    pub shader: Shader,
    pub texture: Texture,
}

impl Material {
    pub fn new(shader: Shader, texture: Texture) -> (m: Material)
        ensures
            m == (Material { shader, texture }),
    {
        Material { shader, texture }
    }
}

} // verus!
