//! The render-resource cache and draw submission plan.
//!
//! GPU buffers are created once per entity, the first time the renderer
//! meets it, and cached by entity id forever; replacing a mesh afterwards
//! leaves the cached buffers stale, a documented limitation of the design.
//! The graphics collaborator performs the actual buffer creation and draw
//! calls; the library decides, for the current storage and cache, which
//! entities need buffers, which are drawn and how (indexed or not, and over
//! how many elements), and which are skipped because a material or
//! transform is missing.

use vstd::prelude::*;

use crate::component_map::ComponentMap;
use crate::mesh::Mesh;
use crate::shader::Material;
use crate::transform::Mat4;
use crate::transform::Transform;

verus! {

/// GPU-side buffer handles for one entity: a vertex array, a vertex buffer,
/// and an index buffer only if the mesh's index sequence was non-empty.
#[derive(Debug, Copy, Clone, PartialEq, Eq)]
pub struct RenderObject {
    pub vao: u32,
    pub vbo: u32,
    pub ebo: Option<u32>,
}

impl RenderObject {
    pub fn new() -> (r: RenderObject)
        ensures
            r.vao == 0,
            r.vbo == 0,
            r.ebo is None,
    {
        RenderObject { vao: 0, vbo: 0, ebo: None }
    }
}

/// One draw the graphics collaborator must issue: the cached buffers, the
/// material to bind, the entity's model matrix, and whether to draw indexed
/// (over the mesh's indices) or flat (over its positions).
#[derive(Debug, Copy, Clone, PartialEq)]
pub struct DrawCall {
    pub id: u32,
    pub object: RenderObject,
    pub material: Material,
    pub model: Mat4,
    pub indexed: bool,
    pub element_count: usize,
}

/// An entity with a mesh is drawable when it also has a material, a
/// transform, and cached buffers.
pub open spec fn spec_drawable(
    materials: ComponentMap<Material>,
    transforms: ComponentMap<Transform>,
    cache: ComponentMap<RenderObject>,
    id: u32,
) -> bool {
    materials.spec_contains(id) && transforms.spec_contains(id) && cache.spec_contains(id)
}

/// The draw call for a drawable entity: indexed exactly when its cached
/// buffers include an index buffer.
pub open spec fn spec_call_for(
    mesh: Mesh,
    materials: ComponentMap<Material>,
    transforms: ComponentMap<Transform>,
    cache: ComponentMap<RenderObject>,
    id: u32,
) -> DrawCall {
    let object = cache.spec_get(id)->Some_0;
    DrawCall {
        id,
        object,
        material: materials.spec_get(id)->Some_0,
        model: transforms.spec_get(id)->Some_0.local_transform,
        indexed: object.ebo is Some,
        element_count: if object.ebo is Some {
            mesh.indices@.len() as usize
        } else {
            mesh.positions@.len() as usize
        },
    }
}

/// The draw calls for the first `m` mesh entries, in mesh-registry order,
/// keeping the drawable entities.
pub open spec fn spec_draw_list(
    meshes: Seq<(u32, Mesh)>,
    materials: ComponentMap<Material>,
    transforms: ComponentMap<Transform>,
    cache: ComponentMap<RenderObject>,
    m: int,
) -> Seq<DrawCall>
    decreases m,
{
    if m <= 0 {
        Seq::empty()
    } else {
        let rest = spec_draw_list(meshes, materials, transforms, cache, m - 1);
        if spec_drawable(materials, transforms, cache, meshes[m - 1].0) {
            rest.push(spec_call_for(meshes[m - 1].1, materials, transforms, cache, meshes[m - 1].0))
        } else {
            rest
        }
    }
}

/// The entities among the first `m` mesh entries that are skipped: they
/// have a mesh but lack a material, a transform, or cached buffers.
pub open spec fn spec_skip_list(
    meshes: Seq<(u32, Mesh)>,
    materials: ComponentMap<Material>,
    transforms: ComponentMap<Transform>,
    cache: ComponentMap<RenderObject>,
    m: int,
) -> Seq<u32>
    decreases m,
{
    if m <= 0 {
        Seq::empty()
    } else {
        let rest = spec_skip_list(meshes, materials, transforms, cache, m - 1);
        if spec_drawable(materials, transforms, cache, meshes[m - 1].0) {
            rest
        } else {
            rest.push(meshes[m - 1].0)
        }
    }
}

/// The entities among the first `m` mesh entries that need GPU buffers
/// created this frame: material and transform present, nothing cached yet.
pub open spec fn spec_create_list(
    meshes: Seq<(u32, Mesh)>,
    materials: ComponentMap<Material>,
    transforms: ComponentMap<Transform>,
    cache: ComponentMap<RenderObject>,
    m: int,
) -> Seq<u32>
    decreases m,
{
    if m <= 0 {
        Seq::empty()
    } else {
        let rest = spec_create_list(meshes, materials, transforms, cache, m - 1);
        if materials.spec_contains(meshes[m - 1].0) && transforms.spec_contains(meshes[m - 1].0)
            && !cache.spec_contains(meshes[m - 1].0) {
            rest.push(meshes[m - 1].0)
        } else {
            rest
        }
    }
}

/// The per-entity cache of GPU buffer handles.
#[derive(Debug)]
pub struct RenderSystem {
    pub objects_to_render: ComponentMap<RenderObject>,
}

impl RenderSystem {
    pub open spec fn wf(&self) -> bool {
        self.objects_to_render.wf()
    }

    pub fn new() -> (r: RenderSystem)
        ensures
            r.wf(),
            r.objects_to_render.spec_len() == 0,
            forall|id: u32| !r.objects_to_render.spec_contains(id),
    {
        RenderSystem { objects_to_render: ComponentMap::new() }
    }
}

} // verus!
