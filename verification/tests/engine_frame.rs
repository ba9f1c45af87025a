use scene_engine::engine::{Engine, EngineState, FramePhase};
use scene_engine::entity::EntityBuilder;
use scene_engine::inputs::{ButtonState, InputSystem};
use scene_engine::primitives::PrimitiveBuilder;
use scene_engine::renderer::RenderObject;
use scene_engine::shader::{Material, Shader, Texture};
use scene_engine::states::EntityState;
use scene_engine::storage::ComponentStorageManager;
use scene_engine::transform::{Mat4, Transform, Vec3};

/// A behavior that does nothing.
struct InertBehavior;

impl EntityState<()> for InertBehavior {
    fn on_create(&mut self, _data: &mut ComponentStorageManager<()>) {}

    fn on_update(
        &mut self,
        _id: u32,
        _data: &mut ComponentStorageManager<()>,
        _input: &InputSystem,
        _delta: u32,
    ) {
    }

    fn on_delete(&mut self, _data: &mut ComponentStorageManager<()>) {}
}

/// A behavior that exercises all three lifecycle hooks by leaving marks in
/// the camera position.
struct MarkingBehavior;

impl EntityState<()> for MarkingBehavior {
    fn on_create(&mut self, data: &mut ComponentStorageManager<()>) {
        data.get_mut_camera().position.x = 111;
    }

    fn on_update(
        &mut self,
        _id: u32,
        data: &mut ComponentStorageManager<()>,
        input: &InputSystem,
        delta: u32,
    ) {
        data.get_mut_camera().position.y = 222;
        data.get_mut_camera().position.z = delta;
        if input.is_key_pressed(44) == ButtonState::PRESSED {
            data.get_mut_camera().direction.x = 333;
        }
    }

    fn on_delete(&mut self, data: &mut ComponentStorageManager<()>) {
        data.get_mut_camera().direction.z = 444;
    }
}

fn identity() -> Mat4 {
    Mat4::new_identity()
}

#[test]
fn end_to_end_quad_frame() {
    // Build a unit quad (4 unique corner vertices, 2 triangles, 6 indices),
    // attach it to a new entity with a default transform and material, run
    // one frame: exactly one indexed draw call of 6 elements, and exactly
    // one render-cache entry keyed by that entity.
    let mut e: Engine<InertBehavior, ()> = Engine::new();
    let mut builder = EntityBuilder::new();
    builder.with_mesh(PrimitiveBuilder::quad());
    builder.with_material(Material::new(Shader::new(0), Texture::new(0)));
    builder.with_transform(Transform::new_default());
    let id = builder.build(&mut e);
    assert_eq!(id, 1);

    e.start();
    assert_eq!(e.current_state(), EngineState::Running);

    e.run_update(0);
    let jobs = e.transform_jobs();
    assert_eq!(jobs.len(), 1);
    assert_eq!(jobs[0].0, id);
    let mats: Vec<(u32, Mat4)> = jobs.iter().map(|j| (j.0, identity())).collect();
    e.apply_local_transforms(&mats).unwrap();

    let creations = e.render_jobs();
    assert_eq!(creations, vec![id]);
    e.register_render_object(id, RenderObject { vao: 1, vbo: 2, ebo: Some(3) });

    let (calls, skipped) = e.draw_calls();
    assert_eq!(calls.len(), 1);
    assert!(skipped.is_empty());
    assert_eq!(calls[0].id, id);
    assert!(calls[0].indexed);
    assert_eq!(calls[0].element_count, 6);
    assert_eq!(calls[0].object.vao, 1);
    assert_eq!(calls[0].model, identity());
    assert_eq!(e.render_system.objects_to_render.len(), 1);

    e.finish_frame(true);
    assert_eq!(e.current_state(), EngineState::Running);
    assert_eq!(e.current_phase(), FramePhase::Idle);

    // The next frame reuses the cached buffers: nothing to create.
    e.run_update(0);
    let mats: Vec<(u32, Mat4)> = e.transform_jobs().iter().map(|j| (j.0, identity())).collect();
    e.apply_local_transforms(&mats).unwrap();
    assert!(e.render_jobs().is_empty());
    assert_eq!(e.render_system.objects_to_render.len(), 1);
    e.finish_frame(false);
    assert_eq!(e.current_state(), EngineState::Stopping);
    e.shutdown();
    assert_eq!(e.current_state(), EngineState::Stopped);
}

#[test]
fn unindexed_mesh_draws_over_positions() {
    let mut e: Engine<InertBehavior, ()> = Engine::new();
    let mut builder = EntityBuilder::new();
    builder.with_mesh(PrimitiveBuilder::cube(scene_engine::mesh::Color::new(
        1.0f32.to_bits(),
        1.0f32.to_bits(),
        1.0f32.to_bits(),
    )));
    let id = builder.build(&mut e);
    e.start();
    e.run_update(0);
    let mats: Vec<(u32, Mat4)> = e.transform_jobs().iter().map(|j| (j.0, identity())).collect();
    e.apply_local_transforms(&mats).unwrap();
    // The cube has no index sequence, so no index buffer was created.
    e.register_render_object(id, RenderObject { vao: 9, vbo: 10, ebo: None });
    let (calls, skipped) = e.draw_calls();
    assert_eq!(calls.len(), 1);
    assert!(skipped.is_empty());
    assert!(!calls[0].indexed);
    assert_eq!(calls[0].element_count, 36);
}

#[test]
fn entities_missing_material_or_transform_are_skipped() {
    let mut e: Engine<InertBehavior, ()> = Engine::new();
    let id = e.create_scene_object().id;
    e.add_mesh(id, PrimitiveBuilder::quad());
    e.start();
    e.run_update(0);
    e.apply_local_transforms(&Vec::new()).unwrap();
    // No material and no transform: nothing to create, and the entity is
    // skipped rather than drawn; the frame goes on.
    assert!(e.render_jobs().is_empty());
    let (calls, skipped) = e.draw_calls();
    assert!(calls.is_empty());
    assert_eq!(skipped, vec![id]);
    e.finish_frame(true);
}

#[test]
fn transform_batch_must_match_registry() {
    let mut e: Engine<InertBehavior, ()> = Engine::new();
    let mut builder = EntityBuilder::new();
    builder.with_mesh(PrimitiveBuilder::quad());
    let id = builder.build(&mut e);
    e.start();
    e.run_update(0);
    let wrong: Vec<(u32, Mat4)> = vec![(id + 1, identity())];
    assert!(e.apply_local_transforms(&wrong).is_err());
    // The rejected batch changed nothing; a matching one is then accepted.
    assert_eq!(e.current_phase(), FramePhase::Updated);
    let right: Vec<(u32, Mat4)> = vec![(id, identity())];
    assert!(e.apply_local_transforms(&right).is_ok());
    assert_eq!(e.current_phase(), FramePhase::Composed);
}

#[test]
fn applied_matrices_land_in_the_transforms() {
    let mut e: Engine<InertBehavior, ()> = Engine::new();
    let id = e.create_scene_object().id;
    e.add_transform(id, Transform::new_default());
    e.start();
    e.run_update(0);
    let mut m = Mat4::new_identity();
    m.data[12] = 1.0f32.to_bits();
    e.apply_local_transforms(&vec![(id, m)]).unwrap();
    assert_eq!(e.get_transform(id).local_transform, m);
    // Translation, rotation and scale were left untouched.
    assert_eq!(e.get_transform(id).scale, Vec3::new(1.0f32.to_bits(), 1.0f32.to_bits(), 1.0f32.to_bits()));
}

#[test]
fn behavior_lifecycle_hooks_run_at_their_points() {
    let mut e: Engine<MarkingBehavior, ()> = Engine::new();
    let id = e.create_scene_object().id;
    // Registration invokes on_create.
    e.add_states(id, MarkingBehavior);
    assert_eq!(e.storage().camera.position.x, 111);
    e.start();
    // The frame update invokes on_update with the input state and delta.
    e.set_key_event(44, ButtonState::PRESSED);
    e.run_update(77);
    assert_eq!(e.storage().camera.position.y, 222);
    assert_eq!(e.storage().camera.position.z, 77);
    assert_eq!(e.storage().camera.direction.x, 333);
    e.apply_local_transforms(&Vec::new()).unwrap();
    e.finish_frame(false);
    // Shutdown invokes on_delete.
    e.shutdown();
    assert_eq!(e.storage().camera.direction.z, 444);
}

#[test]
fn duration_helpers_compute_whole_parts() {
    assert_eq!(Engine::<InertBehavior, ()>::duration_to_millis(2, 250), 2250);
    assert_eq!(Engine::<InertBehavior, ()>::duration_to_micros(1, 500000), 1500000);
}
