use scene_engine::debug::{handle_debug_command, parse_debug_command, total_vertex_count, DebugCommand, DebugResponse};
use scene_engine::mesh::Color;
use scene_engine::primitives::PrimitiveBuilder;
use scene_engine::storage::ComponentStorageManager;

#[test]
fn the_one_recognised_command_is_vertices() {
    assert_eq!(parse_debug_command("vertices"), DebugCommand::VERTICES);
    assert_eq!(parse_debug_command("verts"), DebugCommand::ILLEGAL);
    assert_eq!(parse_debug_command(""), DebugCommand::ILLEGAL);
    assert_eq!(parse_debug_command("VERTICES"), DebugCommand::ILLEGAL);
}

#[test]
fn vertex_total_sums_every_mesh() {
    let mut storage: ComponentStorageManager<()> = ComponentStorageManager::new();
    assert_eq!(total_vertex_count(&storage), 0);
    storage.mesh_manager.set(1, PrimitiveBuilder::quad());
    storage.mesh_manager.set(
        2,
        PrimitiveBuilder::cube(Color::new(1.0f32.to_bits(), 0.5f32.to_bits(), 0.31f32.to_bits())),
    );
    assert_eq!(total_vertex_count(&storage), 4 + 36);
}

#[test]
fn commands_are_answered_per_protocol() {
    let mut storage: ComponentStorageManager<()> = ComponentStorageManager::new();
    storage.mesh_manager.set(1, PrimitiveBuilder::quad());
    assert_eq!(handle_debug_command(&storage, "vertices"), DebugResponse::VertexCount(4));
    assert_eq!(handle_debug_command(&storage, "nonsense"), DebugResponse::UnknownCommand);
}
