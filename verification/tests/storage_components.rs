use scene_engine::engine::{Engine, EngineState, FramePhase};
use scene_engine::inputs::InputSystem;
use scene_engine::mesh::Mesh;
use scene_engine::primitives::PrimitiveBuilder;
use scene_engine::shader::{Material, Shader, Texture};
use scene_engine::states::EntityState;
use scene_engine::storage::ComponentStorageManager;
use scene_engine::transform::{Transform, Vec3};

/// A behavior that does nothing, for engines that only store components.
struct InertBehavior;

impl EntityState<()> for InertBehavior {
    fn on_create(&mut self, _data: &mut ComponentStorageManager<()>) {}

    fn on_update(
        &mut self,
        _id: u32,
        _data: &mut ComponentStorageManager<()>,
        _input: &InputSystem,
        _delta: u32,
    ) {
    }

    fn on_delete(&mut self, _data: &mut ComponentStorageManager<()>) {}
}

fn engine() -> Engine<InertBehavior, ()> {
    Engine::new()
}

#[test]
fn storage_isolation_between_entities() {
    // Two entities, a mesh only on the first: the second reports the
    // missing component, and never the first entity's mesh.
    let mut e = engine();
    let first = e.create_scene_object();
    let second = e.create_scene_object();
    e.add_mesh(first.id, PrimitiveBuilder::quad());
    assert!(e.storage().get_mesh(first.id).is_ok());
    let missing = e.storage().get_mesh(second.id);
    assert_eq!(missing.unwrap_err(), "Mesh doesn't exist!".to_string());
}

#[test]
fn entity_ids_start_at_one_and_count_up() {
    let mut e = engine();
    assert_eq!(e.create_scene_object().id, 1);
    assert_eq!(e.create_scene_object().id, 2);
    assert_eq!(e.create_scene_object().id, 3);
}

#[test]
fn adding_a_mesh_twice_replaces_it() {
    let mut e = engine();
    let id = e.create_scene_object().id;
    e.add_mesh(id, PrimitiveBuilder::quad());
    e.add_mesh(id, Mesh::new_empty());
    assert_eq!(e.storage().mesh_manager.len(), 1);
    assert!(e.storage().get_mesh(id).unwrap().positions.is_empty());
}

#[test]
fn missing_components_report_their_kind() {
    let e = engine();
    assert_eq!(e.storage().get_shader(7).unwrap_err(), "Shader doesn't exist!");
    assert_eq!(e.storage().get_transform(7).unwrap_err(), "Transform doesn't exist!");
    assert_eq!(e.storage().get_material(7).unwrap_err(), "Material doesn't exist!");
    assert_eq!(e.storage().get_update(7).unwrap_err(), "Update doesn't exist!");
}

#[test]
fn component_presence_is_independent_across_kinds() {
    let mut e = engine();
    let id = e.create_scene_object().id;
    e.add_mesh(id, PrimitiveBuilder::quad());
    // A mesh without a transform: the mesh is there, the transform is not.
    assert!(e.storage().get_mesh(id).is_ok());
    assert!(e.storage().get_transform(id).is_err());
}

#[test]
fn add_component_accessors_roundtrip() {
    let mut e = engine();
    let id = e.create_scene_object().id;
    let material = Material::new(Shader::new(11), Texture::new(22));
    let transform = Transform::new(
        Vec3::new(1.0f32.to_bits(), 0, 0),
        Vec3::new(0, 0, 0),
        Vec3::new(2.0f32.to_bits(), 1.0f32.to_bits(), 1.0f32.to_bits()),
    );
    e.add_material(id, material);
    e.add_transform(id, transform);
    e.add_shader(id, Shader::new(11));
    e.add_update(id, ());
    assert_eq!(*e.get_material(id), material);
    assert_eq!(*e.get_transform(id), transform);
    assert_eq!(*e.get_shader(id), Shader::new(11));
    assert_eq!(*e.get_update(id), ());
    assert_eq!(e.current_state(), EngineState::Ready);
    assert_eq!(e.current_phase(), FramePhase::Idle);
}

#[test]
fn default_camera_and_light() {
    let e = engine();
    let camera = e.storage().camera;
    assert_eq!(camera.position.x, 0.5f32.to_bits());
    assert_eq!(camera.position.y, 0.5f32.to_bits());
    assert_eq!(camera.position.z, 3.0f32.to_bits());
    assert_eq!(camera.direction.z, (-1.0f32).to_bits());
    let light = e.storage().light;
    assert_eq!(light.position.x, 1.0f32.to_bits());
    assert_eq!(light.position.y, 1.5f32.to_bits());
    assert_eq!(light.position.z, 2.0f32.to_bits());
    assert_eq!(light.color.x, 1.0f32.to_bits());
}

#[test]
fn mutable_transform_access_updates_in_place() {
    let mut storage: ComponentStorageManager<()> = ComponentStorageManager::new();
    storage.transform_manager.set(4, Transform::new_default());
    {
        let t = storage.get_mut_transform(4);
        t.translation = Vec3::new(5, 6, 7);
    }
    assert_eq!(storage.get_transform(4).unwrap().translation, Vec3::new(5, 6, 7));
}

#[test]
fn mutable_camera_access_updates_in_place() {
    let mut storage: ComponentStorageManager<()> = ComponentStorageManager::new();
    storage.get_mut_camera().position = Vec3::new(1, 2, 3);
    assert_eq!(storage.get_camera().position, Vec3::new(1, 2, 3));
    storage.get_mut_light().position = Vec3::new(9, 9, 9);
    assert_eq!(storage.light.position, Vec3::new(9, 9, 9));
}
