//! Entity assembly.
//!
//! A convenience builder that gathers a mesh, a material and a transform
//! and attaches all three to a freshly issued entity.  It starts from an
//! empty mesh, a placeholder material (the graphics collaborator supplies
//! real shader and texture handles) and the identity transform.

use vstd::prelude::*;

use crate::engine::Engine;
use crate::engine::EngineState;
use crate::mesh::Mesh;
use crate::mesh::mesh_views_equal;
use crate::shader::Material;
use crate::shader::Shader;
use crate::shader::Texture;
use crate::storage::Index;
use crate::transform::Transform;
use crate::transform::vec3_one;
use crate::transform::vec3_zero;

verus! {

/// Gathers the components of one entity before it is built.
#[derive(Debug)]
pub struct EntityBuilder {
    pub mesh: Mesh,
    pub material: Material,
    pub transform: Transform,
}

impl EntityBuilder {
    /// An empty mesh, a placeholder material, the identity transform.
    pub fn new() -> (b: EntityBuilder)
        ensures
            b.mesh.positions@.len() == 0,
            b.mesh.indices@.len() == 0,
            b.material == (Material { shader: Shader { id: 0 }, texture: Texture { id: 0 } }),
            b.transform.translation == vec3_zero(),
            b.transform.rotation == vec3_zero(),
            b.transform.scale == vec3_one(),
    {
        EntityBuilder {
            mesh: Mesh::new_empty(),
            material: Material::new(Shader::new(0), Texture::new(0)),
            transform: Transform::new_default(),
        }
    }

    pub fn with_mesh(&mut self, mesh: Mesh)
        ensures
            final(self).mesh == mesh,
            final(self).material == old(self).material,
            final(self).transform == old(self).transform,
    {
        self.mesh = mesh;
    }

    pub fn with_material(&mut self, material: Material)
        ensures
            final(self).material == material,
            final(self).mesh == old(self).mesh,
            final(self).transform == old(self).transform,
    {
        self.material = material;
    }

    pub fn with_transform(&mut self, transform: Transform)
        ensures
            final(self).transform == transform,
            final(self).mesh == old(self).mesh,
            final(self).material == old(self).material,
    {
        self.transform = transform;
    }

    /// Issues a new entity and attaches a copy of the gathered mesh, the
    /// material and the transform to it; the new id is returned.
    pub fn build<B, U>(&self, engine: &mut Engine<B, U>) -> (r: u32)
        requires
            old(engine).wf(),
            old(engine).entity_count < u32::MAX,
            old(engine).state != EngineState::Stopped,
        ensures
            final(engine).wf(),
            final(engine).entity_count == old(engine).entity_count + 1,
            r == final(engine).entity_count,
            r >= 1,
            final(engine).state == old(engine).state,
            final(engine).phase == old(engine).phase,
            final(engine).storage.mesh_manager.spec_get(r) is Some,
            mesh_views_equal(final(engine).storage.mesh_manager.spec_get(r)->Some_0, self.mesh),
            final(engine).storage.material_manager.spec_get(r) == Some(self.material),
            final(engine).storage.transform_manager.spec_get(r) == Some(self.transform),
            forall|k2: Index|
                k2 != r ==> #[trigger] final(engine).storage.mesh_manager.spec_get(k2) == old(
                    engine,
                ).storage.mesh_manager.spec_get(k2),
            forall|k2: Index|
                k2 != r ==> #[trigger] final(engine).storage.material_manager.spec_get(k2) == old(
                    engine,
                ).storage.material_manager.spec_get(k2),
            forall|k2: Index|
                k2 != r ==> #[trigger] final(engine).storage.transform_manager.spec_get(k2) == old(
                    engine,
                ).storage.transform_manager.spec_get(k2),
    {
        let entity = engine.create_scene_object();
        engine.add_mesh(entity.id, self.mesh.duplicate());
        engine.add_material(entity.id, self.material);
        engine.add_transform(entity.id, self.transform);
        entity.id
    }
}

} // verus!
