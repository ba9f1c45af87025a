//! The frame driver.
//!
//! The engine owns the component storage, the render-resource cache, the
//! behavior scheduler and the input state, issues entity ids from a single
//! monotonic counter (the first id is 1; zero is never issued), and runs
//! the per-frame protocol in a fixed order: event intake, behavior update,
//! transform recompute, render submission, frame end.  The order is part of
//! every operation's contract, through the driver state and the frame
//! phase: events are taken only at the start of a frame, transforms are
//! recomputed before any draw list is assembled, and a stopped engine
//! accepts no further component access.
//!
//! The window, GPU and numeric collaborators drive the protocol from
//! outside: they pump events in, take the transform jobs out and hand the
//! composed matrices back, create GPU buffers for the entities the plan
//! names, and issue the draw calls the plan yields.

use vstd::prelude::*;

use crate::component_map::ComponentMap;
use crate::inputs::ButtonState;
use crate::inputs::InputSystem;
use crate::inputs::Key;
use crate::inputs::MouseButton;
use crate::mesh::Mesh;
use crate::renderer::DrawCall;
use crate::renderer::RenderObject;
use crate::renderer::RenderSystem;
use crate::renderer::spec_create_list;
use crate::renderer::spec_draw_list;
use crate::renderer::spec_call_for;
use crate::renderer::spec_skip_list;
use crate::shader::Material;
use crate::shader::Shader;
use crate::states::EntityState;
use crate::states::StateSystem;
use crate::storage::ComponentStorageManager;
use crate::storage::Index;
use crate::storage::SceneObject;
use crate::transform::Mat4;
use crate::transform::Transform;
use crate::transform::Vec3;
use vstd::pervasive::unreached;

verus! {

/// Where the frame driver stands in its life cycle.
#[derive(Debug, Copy, Clone, PartialEq, Eq, Structural)]
pub enum EngineState {
    /// Built, not yet started.
    Ready,
    /// Iterating frames.
    Running,
    /// A close signal arrived; the loop is winding down.
    Stopping,
    /// Terminal: no further component access is permitted.
    Stopped,
}

/// Where the driver stands inside the current frame.
#[derive(Debug, Copy, Clone, PartialEq, Eq, Structural)]
pub enum FramePhase {
    /// Before the behavior update: events are being taken in.
    Idle,
    /// Behaviors ran; transforms await recomputation.
    Updated,
    /// Every transform's matrix is recomputed; rendering may proceed.
    Composed,
}

/// One transform-recompute job: the entity and its current translation,
/// rotation and scale, whose composition (translate x rotate x scale) the
/// numeric collaborator must hand back.
pub type TransformJob = (Index, Vec3, Vec3, Vec3);

/// The runtime: storage, render cache, scheduler, input state, the entity
/// id counter, and the driver position.
pub struct Engine<B, U> {
    pub storage: ComponentStorageManager<U>,
    pub render_system: RenderSystem,
    pub states_system: StateSystem<B>,
    pub input_system: InputSystem,
    pub entity_count: Index,
    pub state: EngineState,
    pub phase: FramePhase,
}

impl<B, U> Engine<B, U> {
    /// Every registry is well formed.
    pub open spec fn wf(&self) -> bool {
        self.storage.wf() && self.render_system.wf() && self.states_system.wf()
            && self.input_system.wf()
    }

    pub fn new() -> (e: Engine<B, U>)
        ensures
            e.wf(),
            e.entity_count == 0,
            e.state == EngineState::Ready,
            e.phase == FramePhase::Idle,
            forall|id: Index| !e.storage.mesh_manager.spec_contains(id),
            forall|id: Index| !e.storage.shader_manager.spec_contains(id),
            forall|id: Index| !e.storage.transform_manager.spec_contains(id),
            forall|id: Index| !e.storage.material_manager.spec_contains(id),
            forall|id: Index| !e.storage.update_manager.spec_contains(id),
            forall|id: Index| !e.states_system.states_manager.spec_contains(id),
            forall|id: Index| !e.render_system.objects_to_render.spec_contains(id),
            e.storage.transform_manager.spec_len() == 0,
            e.storage.mesh_manager.spec_len() == 0,
            e.render_system.objects_to_render.spec_len() == 0,
    {
        Engine {
            storage: ComponentStorageManager::new(),
            render_system: RenderSystem::new(),
            states_system: StateSystem::new(),
            input_system: InputSystem::new(),
            entity_count: 0,
            state: EngineState::Ready,
            phase: FramePhase::Idle,
        }
    }

    /// The driver's current position, for the collaborators that must obey
    /// the protocol.
    pub fn current_state(&self) -> (r: EngineState)
        ensures
            r == self.state,
    {
        self.state
    }

    /// The current frame phase.
    pub fn current_phase(&self) -> (r: FramePhase)
        ensures
            r == self.phase,
    {
        self.phase
    }

    /// Read access to the component storage.
    pub fn storage(&self) -> (r: &ComponentStorageManager<U>)
        ensures
            *r == self.storage,
    {
        &self.storage
    }

    /// Read access to the input state.
    pub fn inputs(&self) -> (r: &InputSystem)
        ensures
            *r == self.input_system,
    {
        &self.input_system
    }

    /// Issues the next entity id.  Ids count up from 1 and are never
    /// reused.
    pub fn create_scene_object(&mut self) -> (r: SceneObject)
        requires
            old(self).wf(),
            old(self).entity_count < u32::MAX,
            old(self).state != EngineState::Stopped,
        ensures
            final(self).wf(),
            final(self).entity_count == old(self).entity_count + 1,
            r.id == final(self).entity_count,
            r.id >= 1,
            final(self).storage == old(self).storage,
            final(self).render_system == old(self).render_system,
            final(self).states_system == old(self).states_system,
            final(self).input_system == old(self).input_system,
            final(self).state == old(self).state,
            final(self).phase == old(self).phase,
    {
        self.entity_count = self.entity_count + 1;
        SceneObject { id: self.entity_count }
    }

    /// Attaches an empty mesh to an entity.
    pub fn create_and_add_mesh(&mut self, id: Index)
        requires
            old(self).wf(),
            old(self).state != EngineState::Stopped,
        ensures
            final(self).wf(),
            final(self).storage.mesh_manager.spec_get(id) is Some,
            final(self).storage.mesh_manager.spec_get(id)->Some_0.positions@.len() == 0,
            final(self).storage.mesh_manager.spec_get(id)->Some_0.indices@.len() == 0,
            final(self).storage.mesh_manager.spec_get(id)->Some_0.vertices@.len() == 0,
            forall|k2: Index|
                k2 != id ==> #[trigger] final(self).storage.mesh_manager.spec_get(k2) == old(
                    self,
                ).storage.mesh_manager.spec_get(k2),
            same_but_mesh_map(*final(self), *old(self)),
    {
        let mesh = Mesh::new_empty();
        self.storage.mesh_manager.set(id, mesh);
    }

    /// Attaches (or replaces) the mesh of an entity.
    pub fn add_mesh(&mut self, id: Index, mesh: Mesh)
        requires
            old(self).wf(),
            old(self).state != EngineState::Stopped,
        ensures
            final(self).wf(),
            final(self).storage.mesh_manager.spec_get(id) == Some(mesh),
            forall|k2: Index|
                k2 != id ==> #[trigger] final(self).storage.mesh_manager.spec_get(k2) == old(
                    self,
                ).storage.mesh_manager.spec_get(k2),
            final(self).storage.mesh_manager.spec_len() == old(
                self,
            ).storage.mesh_manager.spec_len() + (
            if old(self).storage.mesh_manager.spec_contains(id) {
                0int
            } else {
                1int
            }),
            same_but_mesh_map(*final(self), *old(self)),
    {
        self.storage.mesh_manager.set(id, mesh);
    }

    /// Attaches (or replaces) the shader of an entity.
    pub fn add_shader(&mut self, id: Index, shader: Shader)
        requires
            old(self).wf(),
            old(self).state != EngineState::Stopped,
        ensures
            final(self).wf(),
            final(self).storage.shader_manager.spec_get(id) == Some(shader),
            forall|k2: Index|
                k2 != id ==> #[trigger] final(self).storage.shader_manager.spec_get(k2) == old(
                    self,
                ).storage.shader_manager.spec_get(k2),
            same_but_shader_map(*final(self), *old(self)),
    {
        self.storage.shader_manager.set(id, shader);
    }

    /// Attaches (or replaces) the transform of an entity.
    pub fn add_transform(&mut self, id: Index, transform: Transform)
        requires
            old(self).wf(),
            old(self).state != EngineState::Stopped,
        ensures
            final(self).wf(),
            final(self).storage.transform_manager.spec_get(id) == Some(transform),
            forall|k2: Index|
                k2 != id ==> #[trigger] final(self).storage.transform_manager.spec_get(k2) == old(
                    self,
                ).storage.transform_manager.spec_get(k2),
            same_but_transform_map(*final(self), *old(self)),
    {
        self.storage.transform_manager.set(id, transform);
    }

    /// Attaches (or replaces) the material of an entity.
    pub fn add_material(&mut self, id: Index, material: Material)
        requires
            old(self).wf(),
            old(self).state != EngineState::Stopped,
        ensures
            final(self).wf(),
            final(self).storage.material_manager.spec_get(id) == Some(material),
            forall|k2: Index|
                k2 != id ==> #[trigger] final(self).storage.material_manager.spec_get(k2) == old(
                    self,
                ).storage.material_manager.spec_get(k2),
            same_but_material_map(*final(self), *old(self)),
    {
        self.storage.material_manager.set(id, material);
    }

    /// Attaches (or replaces) the update callback of an entity.
    pub fn add_update(&mut self, id: Index, update: U)
        requires
            old(self).wf(),
            old(self).state != EngineState::Stopped,
        ensures
            final(self).wf(),
            final(self).storage.update_manager.spec_get(id) == Some(update),
            forall|k2: Index|
                k2 != id ==> #[trigger] final(self).storage.update_manager.spec_get(k2) == old(
                    self,
                ).storage.update_manager.spec_get(k2),
            same_but_update_map(*final(self), *old(self)),
    {
        self.storage.update_manager.set(id, update);
    }

    /// Registers (or replaces) the behavior of an entity and invokes its
    /// `on_create` with the storage.
    pub fn add_states(&mut self, id: Index, states: B) where B: EntityState<U>
        requires
            old(self).wf(),
            old(self).state != EngineState::Stopped,
        ensures
            final(self).wf(),
            final(self).states_system.states_manager.spec_contains(id),
            forall|k2: Index|
                k2 != id ==> #[trigger] final(self).states_system.states_manager.spec_get(k2)
                    == old(self).states_system.states_manager.spec_get(k2),
            final(self).render_system == old(self).render_system,
            final(self).input_system == old(self).input_system,
            final(self).entity_count == old(self).entity_count,
            final(self).state == old(self).state,
            final(self).phase == old(self).phase,
    {
        self.states_system.set_entity_states(id, states, &mut self.storage);
    }

    /// The mesh of an entity that must have one.
    pub fn get_mesh(&self, id: Index) -> (r: &Mesh)
        requires
            self.wf(),
            self.storage.mesh_manager.spec_contains(id),
        ensures
            self.storage.mesh_manager.spec_get(id) == Some(*r),
    {
        match self.storage.get_mesh(id) {
            Ok(m) => m,
            Err(_) => unreached(),
        }
    }

    /// The shader of an entity that must have one.
    pub fn get_shader(&self, id: Index) -> (r: &Shader)
        requires
            self.wf(),
            self.storage.shader_manager.spec_contains(id),
        ensures
            self.storage.shader_manager.spec_get(id) == Some(*r),
    {
        match self.storage.get_shader(id) {
            Ok(s) => s,
            Err(_) => unreached(),
        }
    }

    /// The transform of an entity that must have one.
    pub fn get_transform(&self, id: Index) -> (r: &Transform)
        requires
            self.wf(),
            self.storage.transform_manager.spec_contains(id),
        ensures
            self.storage.transform_manager.spec_get(id) == Some(*r),
    {
        match self.storage.get_transform(id) {
            Ok(t) => t,
            Err(_) => unreached(),
        }
    }

    /// The material of an entity that must have one.
    pub fn get_material(&self, id: Index) -> (r: &Material)
        requires
            self.wf(),
            self.storage.material_manager.spec_contains(id),
        ensures
            self.storage.material_manager.spec_get(id) == Some(*r),
    {
        match self.storage.get_material(id) {
            Ok(m) => m,
            Err(_) => unreached(),
        }
    }

    /// The update callback of an entity that must have one.
    pub fn get_update(&self, id: Index) -> (r: &U)
        requires
            self.wf(),
            self.storage.update_manager.spec_contains(id),
        ensures
            self.storage.update_manager.spec_get(id) == Some(*r),
    {
        match self.storage.get_update(id) {
            Ok(u) => u,
            Err(_) => unreached(),
        }
    }

    /// Starts the frame loop: the driver leaves `Ready` and iterates until
    /// a close signal arrives.
    pub fn start(&mut self)
        requires
            old(self).wf(),
            old(self).state == EngineState::Ready,
        ensures
            final(self).wf(),
            final(self).state == EngineState::Running,
            final(self).phase == FramePhase::Idle,
            same_but_driver(*final(self), *old(self)),
    {
        self.state = EngineState::Running;
        self.phase = FramePhase::Idle;
    }

    /// Records a key event.  Event intake happens at the start of a frame,
    /// before the behavior update.
    pub fn set_key_event(&mut self, key: Key, state: ButtonState)
        requires
            old(self).wf(),
            old(self).state == EngineState::Running,
            old(self).phase == FramePhase::Idle,
        ensures
            final(self).wf(),
            final(self).input_system.spec_key_state(key) == state,
            forall|k: Key|
                k != key ==> #[trigger] final(self).input_system.spec_key_state(k) == old(
                    self,
                ).input_system.spec_key_state(k),
            same_but_inputs(*final(self), *old(self)),
    {
        self.input_system.set_key_event(key, state);
    }

    /// Records a mouse button event.
    pub fn set_mouse_button_event(&mut self, button: MouseButton, state: ButtonState)
        requires
            old(self).wf(),
            old(self).state == EngineState::Running,
            old(self).phase == FramePhase::Idle,
        ensures
            final(self).wf(),
            final(self).input_system.spec_button_state(button) == state,
            forall|b: MouseButton|
                b != button ==> #[trigger] final(self).input_system.spec_button_state(b) == old(
                    self,
                ).input_system.spec_button_state(b),
            same_but_inputs(*final(self), *old(self)),
    {
        self.input_system.set_mouse_button_event(button, state);
    }

    /// Records the last mouse motion delta, as double-precision bit
    /// patterns.
    pub fn set_mouse_move_event(&mut self, x_delta: u64, y_delta: u64)
        requires
            old(self).wf(),
            old(self).state == EngineState::Running,
            old(self).phase == FramePhase::Idle,
        ensures
            final(self).wf(),
            final(self).input_system.mouse_x_delta == x_delta,
            final(self).input_system.mouse_y_delta == y_delta,
            same_but_inputs(*final(self), *old(self)),
    {
        self.input_system.set_mouse_move_event(x_delta, y_delta);
    }

    /// The behavior update: invokes every registered behavior once with the
    /// input snapshot and the elapsed seconds (a single-precision bit
    /// pattern).  First step of a frame after event intake.
    pub fn run_update(&mut self, delta: u32) where B: EntityState<U>
        requires
            old(self).wf(),
            old(self).state == EngineState::Running,
            old(self).phase == FramePhase::Idle,
        ensures
            final(self).wf(),
            final(self).state == EngineState::Running,
            final(self).phase == FramePhase::Updated,
            final(self).render_system == old(self).render_system,
            final(self).input_system == old(self).input_system,
            final(self).entity_count == old(self).entity_count,
            final(self).states_system.states_manager.spec_len() == old(
                self,
            ).states_system.states_manager.spec_len(),
            old(self).states_system.states_manager.spec_len() == 0 ==> final(self).storage == old(self).storage && final(self).states_system == old(self).states_system,
    {
        self.states_system.run_update_state(&mut self.storage, &self.input_system, delta);
        self.phase = FramePhase::Updated;
    }

    /// The transform-recompute jobs of this frame: every transform entry,
    /// in registry order, with its current translation, rotation and scale.
    pub fn transform_jobs(&self) -> (r: Vec<TransformJob>)
        requires
            self.wf(),
            self.state == EngineState::Running,
            self.phase == FramePhase::Updated,
        ensures
            r@.len() == self.storage.transform_manager.spec_len(),
            forall|i: int|
                0 <= i < r@.len() ==> #[trigger] r@[i] == (
                    self.storage.transform_manager.key_at(i),
                    self.storage.transform_manager.val_at(i).translation,
                    self.storage.transform_manager.val_at(i).rotation,
                    self.storage.transform_manager.val_at(i).scale,
                ),
    {
        let mut jobs: Vec<TransformJob> = Vec::new();
        let n = self.storage.transform_manager.len();
        let mut i: usize = 0;
        while i < n
            invariant
                i <= n,
                self.wf(),
                n == self.storage.transform_manager.spec_len(),
                jobs@.len() == i,
                forall|j: int|
                    0 <= j < i ==> #[trigger] jobs@[j] == (
                        self.storage.transform_manager.key_at(j),
                        self.storage.transform_manager.val_at(j).translation,
                        self.storage.transform_manager.val_at(j).rotation,
                        self.storage.transform_manager.val_at(j).scale,
                    ),
            decreases n - i,
        {
            let entry = self.storage.transform_manager.entry_at(i);
            let id = entry.0;
            let t = entry.1;
            jobs.push((id, t.translation, t.rotation, t.scale));
            i = i + 1;
        }
        jobs
    }

    /// Stores the matrices the numeric collaborator composed, one per
    /// transform job and in the same order; every transform's cached matrix
    /// is replaced and nothing else changes.  A batch that does not match
    /// the current transform registry exactly is rejected and nothing
    /// changes.
    #[verifier::loop_isolation(false)]
    pub fn apply_local_transforms(&mut self, mats: &Vec<(Index, Mat4)>) -> (r: Result<(), String>)
        requires
            old(self).wf(),
            old(self).state == EngineState::Running,
            old(self).phase == FramePhase::Updated,
        ensures
            final(self).wf(),
            final(self).state == EngineState::Running,
            r is Ok <==> (mats@.len() == old(self).storage.transform_manager.spec_len() && (forall|
                i: int,
            |
                0 <= i < mats@.len() ==> (#[trigger] mats@[i]).0 == old(
                    self,
                ).storage.transform_manager.key_at(i))),
            r is Ok ==> {
                &&& final(self).phase == FramePhase::Composed
                &&& final(self).storage.transform_manager.spec_len() == old(
                    self,
                ).storage.transform_manager.spec_len()
                &&& forall|i: int|
                    0 <= i < mats@.len()
                        ==> (#[trigger] final(self).storage.transform_manager.entries_seq()[i]) == (
                        old(self).storage.transform_manager.key_at(i),
                        Transform {
                            local_transform: mats@[i].1,
                            ..old(self).storage.transform_manager.val_at(i)
                        },
                    )
                &&& same_but_transform_matrices(*final(self), *old(self))
            },
            r is Err ==> {
                &&& *final(self) == *old(self)
                &&& final(self).phase == FramePhase::Updated
            },
    {
        let n = self.storage.transform_manager.len();
        if mats.len() != n {
            return Err("transform batch does not match the registry".to_string());
        }
        let mut i: usize = 0;
        while i < n
            invariant
                i <= n,
                forall|j: int|
                    0 <= j < i ==> (#[trigger] mats@[j]).0
                        == self.storage.transform_manager.key_at(j),
            decreases n - i,
        {
            if mats[i].0 != self.storage.transform_manager.entry_at(i).0 {
                return Err("transform batch does not match the registry".to_string());
            }
            i = i + 1;
        }
        let ghost prev = self.storage.transform_manager.entries_seq();
        let mut i: usize = 0;
        while i < n
            invariant
                i <= n,
                self.storage.transform_manager.spec_len() == prev.len(),
                forall|j: int|
                    i <= j < n ==> #[trigger] self.storage.transform_manager.entries_seq()[j]
                        == prev[j],
                forall|j: int|
                    0 <= j < i ==> #[trigger] self.storage.transform_manager.entries_seq()[j] == (
                        prev[j].0,
                        Transform { local_transform: mats@[j].1, ..prev[j].1 },
                    ),
                self.storage.transform_manager.wf(),
                same_but_transform_matrices(*self, *old(self)),
            decreases n - i,
        {
            let m = mats[i].1;
            let t = self.storage.transform_manager.value_at_mut(i);
            t.local_transform = m;
            i = i + 1;
        }
        self.phase = FramePhase::Composed;
        Ok(())
    }

    /// The entities that need GPU buffers created this frame: they have a
    /// mesh, a material and a transform, and nothing is cached for them
    /// yet, in mesh-registry order.
    pub fn render_jobs(&self) -> (r: Vec<Index>)
        requires
            self.wf(),
            self.state == EngineState::Running,
            self.phase == FramePhase::Composed,
        ensures
            r@ == spec_create_list(
                self.storage.mesh_manager.entries_seq(),
                self.storage.material_manager,
                self.storage.transform_manager,
                self.render_system.objects_to_render,
                self.storage.mesh_manager.spec_len() as int,
            ),
            forall|i: int|
                0 <= i < r@.len() ==> self.storage.mesh_manager.spec_contains(#[trigger] r@[i]),
    {
        let mut out: Vec<Index> = Vec::new();
        let n = self.storage.mesh_manager.len();
        let mut i: usize = 0;
        while i < n
            invariant
                i <= n,
                self.wf(),
                n == self.storage.mesh_manager.spec_len(),
                out@ == spec_create_list(
                    self.storage.mesh_manager.entries_seq(),
                    self.storage.material_manager,
                    self.storage.transform_manager,
                    self.render_system.objects_to_render,
                    i as int,
                ),
                forall|j: int|
                    0 <= j < out@.len() ==> self.storage.mesh_manager.spec_contains(
                        #[trigger] out@[j],
                    ),
            decreases n - i,
        {
            let id = self.storage.mesh_manager.entry_at(i).0;
            if self.storage.material_manager.contains_key(id)
                && self.storage.transform_manager.contains_key(id)
                && !self.render_system.objects_to_render.contains_key(id) {
                out.push(id);
            }
            i = i + 1;
        }
        out
    }

    /// Caches the GPU buffers the graphics collaborator created for an
    /// entity.  An entry is created once per entity id and then reused
    /// frame after frame.
    pub fn register_render_object(&mut self, id: Index, object: RenderObject)
        requires
            old(self).wf(),
            old(self).state == EngineState::Running,
            old(self).phase == FramePhase::Composed,
        ensures
            final(self).wf(),
            final(self).render_system.objects_to_render.spec_get(id) == Some(object),
            forall|k2: Index|
                k2 != id ==> #[trigger] final(self).render_system.objects_to_render.spec_get(k2)
                    == old(self).render_system.objects_to_render.spec_get(k2),
            final(self).render_system.objects_to_render.spec_len() == old(
                self,
            ).render_system.objects_to_render.spec_len() + (
            if old(self).render_system.objects_to_render.spec_contains(id) {
                0int
            } else {
                1int
            }),
            same_but_render_cache(*final(self), *old(self)),
    {
        self.render_system.objects_to_render.set(id, object);
    }

    /// The frame's draw submission plan: for every entity with a mesh, in
    /// mesh-registry order, either a draw call (material, transform and
    /// cached buffers all present) or its id among the skipped.  A draw is
    /// indexed exactly when the cached buffers include an index buffer, and
    /// covers the mesh's indices then, its positions otherwise.
    pub fn draw_calls(&self) -> (r: (Vec<DrawCall>, Vec<Index>))
        requires
            self.wf(),
            self.state == EngineState::Running,
            self.phase == FramePhase::Composed,
        ensures
            r.0@ == spec_draw_list(
                self.storage.mesh_manager.entries_seq(),
                self.storage.material_manager,
                self.storage.transform_manager,
                self.render_system.objects_to_render,
                self.storage.mesh_manager.spec_len() as int,
            ),
            r.1@ == spec_skip_list(
                self.storage.mesh_manager.entries_seq(),
                self.storage.material_manager,
                self.storage.transform_manager,
                self.render_system.objects_to_render,
                self.storage.mesh_manager.spec_len() as int,
            ),
    {
        let mut calls: Vec<DrawCall> = Vec::new();
        let mut skipped: Vec<Index> = Vec::new();
        let n = self.storage.mesh_manager.len();
        let mut i: usize = 0;
        while i < n
            invariant
                i <= n,
                self.wf(),
                n == self.storage.mesh_manager.spec_len(),
                calls@ == spec_draw_list(
                    self.storage.mesh_manager.entries_seq(),
                    self.storage.material_manager,
                    self.storage.transform_manager,
                    self.render_system.objects_to_render,
                    i as int,
                ),
                skipped@ == spec_skip_list(
                    self.storage.mesh_manager.entries_seq(),
                    self.storage.material_manager,
                    self.storage.transform_manager,
                    self.render_system.objects_to_render,
                    i as int,
                ),
            decreases n - i,
        {
            let entry = self.storage.mesh_manager.entry_at(i);
            let id = entry.0;
            let mesh = &entry.1;
            let material = self.storage.material_manager.get(id);
            let transform = self.storage.transform_manager.get(id);
            let object = self.render_system.objects_to_render.get(id);
            match (material, transform, object) {
                (Some(material), Some(transform), Some(object)) => {
                    let indexed = object.ebo.is_some();
                    let element_count = if indexed {
                        mesh.indices.len()
                    } else {
                        mesh.positions.len()
                    };
                    let call = DrawCall {
                        id,
                        object: *object,
                        material: *material,
                        model: transform.local_transform,
                        indexed,
                        element_count,
                    };
                    proof {
                        assert(call == spec_call_for(
                            self.storage.mesh_manager.entries_seq()[i as int].1,
                            self.storage.material_manager,
                            self.storage.transform_manager,
                            self.render_system.objects_to_render,
                            id,
                        ));
                    }
                    calls.push(call);
                },
                _ => {
                    skipped.push(id);
                },
            }
            i = i + 1;
        }
        (calls, skipped)
    }

    /// Ends the frame.  On a close signal (`keep_running` false) the driver
    /// leaves `Running` for `Stopping`; otherwise the next frame begins
    /// with event intake.
    pub fn finish_frame(&mut self, keep_running: bool)
        requires
            old(self).wf(),
            old(self).state == EngineState::Running,
            old(self).phase == FramePhase::Composed,
        ensures
            final(self).wf(),
            final(self).phase == FramePhase::Idle,
            keep_running ==> final(self).state == EngineState::Running,
            !keep_running ==> final(self).state == EngineState::Stopping,
            same_but_driver(*final(self), *old(self)),
    {
        self.phase = FramePhase::Idle;
        if keep_running {
            self.state = EngineState::Running;
        } else {
            self.state = EngineState::Stopping;
        }
    }

    /// Winds the runtime down after the loop exited: every behavior's
    /// `on_delete` runs, and the driver reaches its terminal state.
    pub fn shutdown(&mut self) where B: EntityState<U>
        requires
            old(self).wf(),
            old(self).state == EngineState::Stopping,
        ensures
            final(self).wf(),
            final(self).state == EngineState::Stopped,
            final(self).states_system.states_manager.spec_len() == old(
                self,
            ).states_system.states_manager.spec_len(),
            old(self).states_system.states_manager.spec_len() == 0 ==> final(self).storage == old(self).storage && final(self).states_system == old(self).states_system,
    {
        self.states_system.run_delete_state(&mut self.storage);
        self.state = EngineState::Stopped;
    }

    /// Milliseconds of a duration given as whole seconds and the
    /// millisecond part.
    pub fn duration_to_millis(secs: u64, subsec_millis: u32) -> (r: u64)
        requires
            subsec_millis < 1000,
            secs * 1000 + 999 <= u64::MAX,
        ensures
            r == secs * 1000 + subsec_millis,
    {
        secs * 1000 + (subsec_millis as u64)
    }

    /// Microseconds of a duration given as whole seconds and the
    /// microsecond part.
    pub fn duration_to_micros(secs: u64, subsec_micros: u32) -> (r: u64)
        requires
            subsec_micros < 1000000,
            secs * 1000000 + 999999 <= u64::MAX,
        ensures
            r == secs * 1000000 + subsec_micros,
    {
        secs * 1000000 + (subsec_micros as u64)
    }
}

/// Equal in everything but the mesh registry.
pub open spec fn same_but_mesh_map<B, U>(a: Engine<B, U>, b: Engine<B, U>) -> bool {
    a.storage.shader_manager == b.storage.shader_manager && a.storage.transform_manager
        == b.storage.transform_manager && a.storage.material_manager == b.storage.material_manager
        && a.storage.update_manager == b.storage.update_manager && a.storage.camera
        == b.storage.camera && a.storage.light == b.storage.light && a.render_system
        == b.render_system && a.states_system == b.states_system && a.input_system
        == b.input_system && a.entity_count == b.entity_count && a.state == b.state && a.phase
        == b.phase
}

/// Equal in everything but the shader registry.
pub open spec fn same_but_shader_map<B, U>(a: Engine<B, U>, b: Engine<B, U>) -> bool {
    a.storage.mesh_manager == b.storage.mesh_manager && a.storage.transform_manager
        == b.storage.transform_manager && a.storage.material_manager == b.storage.material_manager
        && a.storage.update_manager == b.storage.update_manager && a.storage.camera
        == b.storage.camera && a.storage.light == b.storage.light && a.render_system
        == b.render_system && a.states_system == b.states_system && a.input_system
        == b.input_system && a.entity_count == b.entity_count && a.state == b.state && a.phase
        == b.phase
}

/// Equal in everything but the transform registry.
pub open spec fn same_but_transform_map<B, U>(a: Engine<B, U>, b: Engine<B, U>) -> bool {
    a.storage.mesh_manager == b.storage.mesh_manager && a.storage.shader_manager
        == b.storage.shader_manager && a.storage.material_manager == b.storage.material_manager
        && a.storage.update_manager == b.storage.update_manager && a.storage.camera
        == b.storage.camera && a.storage.light == b.storage.light && a.render_system
        == b.render_system && a.states_system == b.states_system && a.input_system
        == b.input_system && a.entity_count == b.entity_count && a.state == b.state && a.phase
        == b.phase
}

/// Equal in everything but the cached matrices inside the transform
/// registry (and the frame phase, which recomputation advances).
pub open spec fn same_but_transform_matrices<B, U>(a: Engine<B, U>, b: Engine<B, U>) -> bool {
    a.storage.mesh_manager == b.storage.mesh_manager && a.storage.shader_manager
        == b.storage.shader_manager && a.storage.material_manager == b.storage.material_manager
        && a.storage.update_manager == b.storage.update_manager && a.storage.camera
        == b.storage.camera && a.storage.light == b.storage.light && a.render_system
        == b.render_system && a.states_system == b.states_system && a.input_system
        == b.input_system && a.entity_count == b.entity_count && a.state == b.state
}

/// Equal in everything but the material registry.
pub open spec fn same_but_material_map<B, U>(a: Engine<B, U>, b: Engine<B, U>) -> bool {
    a.storage.mesh_manager == b.storage.mesh_manager && a.storage.shader_manager
        == b.storage.shader_manager && a.storage.transform_manager == b.storage.transform_manager
        && a.storage.update_manager == b.storage.update_manager && a.storage.camera
        == b.storage.camera && a.storage.light == b.storage.light && a.render_system
        == b.render_system && a.states_system == b.states_system && a.input_system
        == b.input_system && a.entity_count == b.entity_count && a.state == b.state && a.phase
        == b.phase
}

/// Equal in everything but the update-callback registry.
pub open spec fn same_but_update_map<B, U>(a: Engine<B, U>, b: Engine<B, U>) -> bool {
    a.storage.mesh_manager == b.storage.mesh_manager && a.storage.shader_manager
        == b.storage.shader_manager && a.storage.transform_manager == b.storage.transform_manager
        && a.storage.material_manager == b.storage.material_manager && a.storage.camera
        == b.storage.camera && a.storage.light == b.storage.light && a.render_system
        == b.render_system && a.states_system == b.states_system && a.input_system
        == b.input_system && a.entity_count == b.entity_count && a.state == b.state && a.phase
        == b.phase
}

/// Equal in everything but the render cache.
pub open spec fn same_but_render_cache<B, U>(a: Engine<B, U>, b: Engine<B, U>) -> bool {
    a.storage == b.storage && a.states_system == b.states_system && a.input_system
        == b.input_system && a.entity_count == b.entity_count && a.state == b.state && a.phase
        == b.phase
}

/// Equal in everything but the input state.
pub open spec fn same_but_inputs<B, U>(a: Engine<B, U>, b: Engine<B, U>) -> bool {
    a.storage == b.storage && a.render_system == b.render_system && a.states_system
        == b.states_system && a.entity_count == b.entity_count && a.state == b.state && a.phase
        == b.phase
}

/// Equal in everything but the driver position.
pub open spec fn same_but_driver<B, U>(a: Engine<B, U>, b: Engine<B, U>) -> bool {
    a.storage == b.storage && a.render_system == b.render_system && a.states_system
        == b.states_system && a.input_system == b.input_system && a.entity_count == b.entity_count
}

} // verus!
