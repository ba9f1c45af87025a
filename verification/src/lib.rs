//! A small real-time rendering runtime: scene objects named by opaque integer
//! ids, component registries for meshes, materials, transforms and behaviors,
//! a vertex-welding geometry builder, a per-frame scheduling protocol, and a
//! render-resource cache, all with verified contracts.  Window and event
//! pumping, GPU calls and numeric matrix work are collaborators that drive
//! the library from outside.

pub mod scalar;
pub mod component_map;
pub mod mesh;
pub mod transform;
pub mod camera;
pub mod light;
pub mod shader;
pub mod inputs;
pub mod storage;
pub mod states;
pub mod renderer;
pub mod engine;
pub mod primitives;
pub mod entity;
pub mod debug;
