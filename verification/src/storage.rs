//! Component storage.
//!
//! One map per component kind, keyed by entity id; the registry is the sole
//! point of truth for what exists.  Presence is independent across kinds: an
//! entity may have a mesh and no transform, and a lookup then reports the
//! missing component instead of crashing the frame.  The storage never
//! removes components; that is a documented limitation of the design.
//! The update-callback type `U` is chosen by the application; the runtime
//! stores those callbacks without invoking them.

use vstd::prelude::*;

use crate::camera::Camera;
use crate::component_map::ComponentMap;
use crate::light::Light;
use crate::mesh::Mesh;
use crate::shader::Shader;
use crate::shader::Material;
use crate::transform::Transform;

verus! {

/// An entity id: opaque, monotonically increasing, never zero, never
/// reused.
pub type Index = u32;

/// A scene object, named by its entity id.
#[derive(Debug, Copy, Clone, PartialEq, Eq, Structural)]
pub struct SceneObject {
    pub id: Index,
}

/// One registry per component kind, plus the single camera and light.
#[derive(Debug)]
pub struct ComponentStorageManager<U> {
    pub mesh_manager: ComponentMap<Mesh>,
    pub shader_manager: ComponentMap<Shader>,
    pub transform_manager: ComponentMap<Transform>,
    pub material_manager: ComponentMap<Material>,
    pub update_manager: ComponentMap<U>,
    pub camera: Camera,
    pub light: Light,
}

impl<U> ComponentStorageManager<U> {
    /// Every registry has unique keys.
    pub open spec fn wf(&self) -> bool {
        self.mesh_manager.wf() && self.shader_manager.wf() && self.transform_manager.wf()
            && self.material_manager.wf() && self.update_manager.wf()
    }

    /// Empty registries, the default camera and the default light.
    pub fn new() -> (s: ComponentStorageManager<U>)
        ensures
            s.wf(),
            s.mesh_manager.spec_len() == 0,
            s.shader_manager.spec_len() == 0,
            s.transform_manager.spec_len() == 0,
            s.material_manager.spec_len() == 0,
            s.update_manager.spec_len() == 0,
            forall|id: Index| !s.mesh_manager.spec_contains(id),
            forall|id: Index| !s.shader_manager.spec_contains(id),
            forall|id: Index| !s.transform_manager.spec_contains(id),
            forall|id: Index| !s.material_manager.spec_contains(id),
            forall|id: Index| !s.update_manager.spec_contains(id),
    {
        ComponentStorageManager {
            mesh_manager: ComponentMap::new(),
            shader_manager: ComponentMap::new(),
            transform_manager: ComponentMap::new(),
            material_manager: ComponentMap::new(),
            update_manager: ComponentMap::new(),
            camera: Camera::default(),
            light: Light::default(),
        }
    }

    /// The mesh of an entity, or the missing-component condition.
    pub fn get_mesh(&self, id: Index) -> (r: Result<&Mesh, String>)
        requires
            self.wf(),
        ensures
            match r {
                Ok(m) => self.mesh_manager.spec_get(id) == Some(*m),
                Err(e) => !self.mesh_manager.spec_contains(id) && e@ == "Mesh doesn't exist!"@,
            },
    {
        match self.mesh_manager.get(id) {
            None => Err("Mesh doesn't exist!".to_string()),
            Some(mesh) => Ok(mesh),
        }
    }

    /// Exclusive access to the mesh of an entity that must have one.
    pub fn get_mut_mesh(&mut self, id: Index) -> (r: &mut Mesh)
        requires
            old(self).wf(),
            old(self).mesh_manager.spec_contains(id),
        ensures
            old(self).mesh_manager.spec_get(id) == Some(*r),
            final(self).mesh_manager.entries_seq() == old(self).mesh_manager.entries_seq().update(
                old(self).mesh_manager.spec_index_of(id),
                (id, *final(r)),
            ),
            final(self).wf(),
            final(self).shader_manager == old(self).shader_manager,
            final(self).transform_manager == old(self).transform_manager,
            final(self).material_manager == old(self).material_manager,
            final(self).update_manager == old(self).update_manager,
            final(self).camera == old(self).camera,
            final(self).light == old(self).light,
    {
        self.mesh_manager.get_mut(id)
    }

    /// The shader of an entity, or the missing-component condition.
    pub fn get_shader(&self, id: Index) -> (r: Result<&Shader, String>)
        requires
            self.wf(),
        ensures
            match r {
                Ok(s) => self.shader_manager.spec_get(id) == Some(*s),
                Err(e) => !self.shader_manager.spec_contains(id) && e@ == "Shader doesn't exist!"@,
            },
    {
        match self.shader_manager.get(id) {
            None => Err("Shader doesn't exist!".to_string()),
            Some(shader) => Ok(shader),
        }
    }

    /// The transform of an entity, or the missing-component condition.
    pub fn get_transform(&self, id: Index) -> (r: Result<&Transform, String>)
        requires
            self.wf(),
        ensures
            match r {
                Ok(t) => self.transform_manager.spec_get(id) == Some(*t),
                Err(e) => !self.transform_manager.spec_contains(id) && e@
                    == "Transform doesn't exist!"@,
            },
    {
        match self.transform_manager.get(id) {
            None => Err("Transform doesn't exist!".to_string()),
            Some(transform) => Ok(transform),
        }
    }

    /// Exclusive access to the transform of an entity that must have one,
    /// for behavior code that moves entities.
    pub fn get_mut_transform(&mut self, id: Index) -> (r: &mut Transform)
        requires
            old(self).wf(),
            old(self).transform_manager.spec_contains(id),
        ensures
            old(self).transform_manager.spec_get(id) == Some(*r),
            final(self).transform_manager.entries_seq() == old(
                self,
            ).transform_manager.entries_seq().update(
                old(self).transform_manager.spec_index_of(id),
                (id, *final(r)),
            ),
            final(self).wf(),
            final(self).mesh_manager == old(self).mesh_manager,
            final(self).shader_manager == old(self).shader_manager,
            final(self).material_manager == old(self).material_manager,
            final(self).update_manager == old(self).update_manager,
            final(self).camera == old(self).camera,
            final(self).light == old(self).light,
    {
        self.transform_manager.get_mut(id)
    }

    /// The material of an entity, or the missing-component condition.
    pub fn get_material(&self, id: Index) -> (r: Result<&Material, String>)
        requires
            self.wf(),
        ensures
            match r {
                Ok(m) => self.material_manager.spec_get(id) == Some(*m),
                Err(e) => !self.material_manager.spec_contains(id) && e@
                    == "Material doesn't exist!"@,
            },
    {
        match self.material_manager.get(id) {
            None => Err("Material doesn't exist!".to_string()),
            Some(material) => Ok(material),
        }
    }

    /// The update callback of an entity, or the missing-component condition.
    pub fn get_update(&self, id: Index) -> (r: Result<&U, String>)
        requires
            self.wf(),
        ensures
            match r {
                Ok(u) => self.update_manager.spec_get(id) == Some(*u),
                Err(e) => !self.update_manager.spec_contains(id) && e@ == "Update doesn't exist!"@,
            },
    {
        match self.update_manager.get(id) {
            None => Err("Update doesn't exist!".to_string()),
            Some(update) => Ok(update),
        }
    }

    pub fn get_camera(&self) -> (r: &Camera)
        ensures
            *r == self.camera,
    {
        &self.camera
    }

    /// Exclusive access to the camera, for behavior code that moves the
    /// viewpoint.
    pub fn get_mut_camera(&mut self) -> (r: &mut Camera)
        ensures
            *r == old(self).camera,
            final(self).camera == *final(r),
            final(self).mesh_manager == old(self).mesh_manager,
            final(self).shader_manager == old(self).shader_manager,
            final(self).transform_manager == old(self).transform_manager,
            final(self).material_manager == old(self).material_manager,
            final(self).update_manager == old(self).update_manager,
            final(self).light == old(self).light,
    {
        &mut self.camera
    }

    /// Exclusive access to the light.
    pub fn get_mut_light(&mut self) -> (r: &mut Light)
        ensures
            *r == old(self).light,
            final(self).light == *final(r),
            final(self).mesh_manager == old(self).mesh_manager,
            final(self).shader_manager == old(self).shader_manager,
            final(self).transform_manager == old(self).transform_manager,
            final(self).material_manager == old(self).material_manager,
            final(self).update_manager == old(self).update_manager,
            final(self).camera == old(self).camera,
    {
        &mut self.light
    }
}

} // verus!
