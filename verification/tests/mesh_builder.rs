use scene_engine::mesh::{Color, Mesh, MeshBuilder, MeshError, Normal, Vertex, UV};

fn bits(x: f32) -> u32 {
    x.to_bits()
}

fn full_vertex(builder: &mut MeshBuilder, p: (f32, f32, f32), c: (f32, f32, f32), uv: (f32, f32)) {
    builder.add_full_vertice_info(
        Vertex::new(bits(p.0), bits(p.1), bits(p.2)),
        Color::new(bits(c.0), bits(c.1), bits(c.2)),
        UV::new(bits(uv.0), bits(uv.1)),
        Normal { x: bits(0.0), y: bits(1.0), z: bits(0.0) },
    );
}

#[test]
fn weld_collapses_duplicate_pair() {
    // Six face-vertices; vertices 0 and 4 are identical in all four
    // attributes, every other pair differs: exactly one pair collapses.
    let mut builder = MeshBuilder::new();
    full_vertex(&mut builder, (0.5, 0.5, 0.0), (1.0, 0.0, 0.0), (1.0, 1.0));
    full_vertex(&mut builder, (0.5, -0.5, 0.0), (0.0, 1.0, 0.0), (1.0, 0.0));
    full_vertex(&mut builder, (-0.5, -0.5, 0.0), (0.0, 0.0, 1.0), (0.0, 0.0));
    full_vertex(&mut builder, (-0.5, 0.5, 0.0), (1.0, 1.0, 0.0), (0.0, 1.0));
    full_vertex(&mut builder, (0.5, 0.5, 0.0), (1.0, 0.0, 0.0), (1.0, 1.0));
    full_vertex(&mut builder, (0.25, 0.5, 0.0), (1.0, 0.0, 1.0), (0.5, 1.0));
    let mesh = builder.commit().unwrap();
    assert_eq!(mesh.indices, vec![0, 1, 2, 3, 0, 4]);
    assert_eq!(mesh.positions.len(), 5);
    assert_eq!(mesh.colors.len(), 5);
    assert_eq!(mesh.texture_coords.len(), 5);
    assert_eq!(mesh.normals.len(), 5);
}

#[test]
fn weld_reuses_existing_index() {
    let mut builder = MeshBuilder::new();
    full_vertex(&mut builder, (1.0, 2.0, 3.0), (1.0, 1.0, 1.0), (0.0, 0.0));
    full_vertex(&mut builder, (1.0, 2.0, 3.0), (1.0, 1.0, 1.0), (0.0, 0.0));
    let mesh = builder.commit().unwrap();
    assert_eq!(mesh.indices, vec![0, 0]);
    assert_eq!(mesh.positions.len(), 1);
}

#[test]
fn weld_treats_signed_zeros_as_equal() {
    // +0.0 and -0.0 have different bit patterns but are equal values.
    let mut builder = MeshBuilder::new();
    builder.add_full_vertice_info(
        Vertex::new(bits(0.0), bits(1.0), bits(2.0)),
        Color::new(bits(1.0), bits(1.0), bits(1.0)),
        UV::new(bits(0.0), bits(0.0)),
        Normal { x: bits(0.0), y: bits(1.0), z: bits(0.0) },
    );
    builder.add_full_vertice_info(
        Vertex::new(bits(-0.0), bits(1.0), bits(2.0)),
        Color::new(bits(1.0), bits(1.0), bits(1.0)),
        UV::new(bits(0.0), bits(0.0)),
        Normal { x: bits(0.0), y: bits(1.0), z: bits(0.0) },
    );
    let mesh = builder.commit().unwrap();
    assert_eq!(mesh.indices, vec![0, 0]);
    assert_eq!(mesh.positions.len(), 1);
}

#[test]
fn weld_never_matches_nan() {
    // NaN equals nothing, itself included: the same NaN vertex twice stays
    // two unique vertices.
    let nan = f32::NAN.to_bits();
    let mut builder = MeshBuilder::new();
    for _ in 0..2 {
        builder.add_full_vertice_info(
            Vertex::new(nan, bits(1.0), bits(2.0)),
            Color::new(bits(1.0), bits(1.0), bits(1.0)),
            UV::new(bits(0.0), bits(0.0)),
            Normal { x: bits(0.0), y: bits(1.0), z: bits(0.0) },
        );
    }
    let mesh = builder.commit().unwrap();
    assert_eq!(mesh.indices, vec![0, 1]);
    assert_eq!(mesh.positions.len(), 2);
}

#[test]
fn commit_twice_is_byte_identical() {
    let mut builder = MeshBuilder::new();
    full_vertex(&mut builder, (0.5, 0.5, 0.0), (1.0, 0.0, 0.0), (1.0, 1.0));
    full_vertex(&mut builder, (0.5, -0.5, 0.0), (0.0, 1.0, 0.0), (1.0, 0.0));
    full_vertex(&mut builder, (0.5, 0.5, 0.0), (1.0, 0.0, 0.0), (1.0, 1.0));
    let first = builder.commit().unwrap();
    let second = builder.commit().unwrap();
    assert_eq!(first.vertices, second.vertices);
    assert_eq!(first.indices, second.indices);
    assert_eq!(first.positions, second.positions);
}

#[test]
fn commit_fills_default_colors_and_normals() {
    let mut builder = MeshBuilder::new();
    builder.add_vertex(bits(0.0), bits(0.0), bits(0.0));
    builder.add_vertex(bits(1.0), bits(0.0), bits(0.0));
    builder.add_vertex(bits(0.0), bits(1.0), bits(0.0));
    for _ in 0..3 {
        builder.add_uv(UV::new(bits(0.0), bits(0.0)));
    }
    let mesh = builder.commit().unwrap();
    assert_eq!(mesh.colors.len(), 3);
    for c in mesh.colors.iter() {
        assert_eq!((c.r, c.g, c.b, c.a), (bits(1.0), bits(1.0), bits(1.0), bits(1.0)));
    }
    assert_eq!(mesh.normals.len(), 3);
    for n in mesh.normals.iter() {
        assert_eq!((n.x, n.y, n.z), (bits(0.0), bits(1.0), bits(0.0)));
    }
}

#[test]
fn commit_rejects_mismatched_attribute_lengths() {
    let mut builder = MeshBuilder::new();
    builder.add_vertex(bits(0.0), bits(0.0), bits(0.0));
    builder.add_vertex(bits(1.0), bits(0.0), bits(0.0));
    builder.add_color(Color::new(bits(1.0), bits(1.0), bits(1.0)));
    builder.add_uv(UV::new(bits(0.0), bits(0.0)));
    builder.add_uv(UV::new(bits(1.0), bits(0.0)));
    let err = builder.commit().unwrap_err();
    assert_eq!(err, MeshError::AttributeLengthMismatch);
    assert_eq!(err.message(), "attribute arrays have mismatched lengths");
}

#[test]
fn commit_rejects_out_of_range_index() {
    let mut builder = MeshBuilder::new();
    builder.add_vertex(bits(0.0), bits(0.0), bits(0.0));
    builder.add_uv(UV::new(bits(0.0), bits(0.0)));
    builder.add_index(5);
    let err = builder.commit().unwrap_err();
    assert_eq!(err, MeshError::IndexOutOfRange);
    assert_eq!(err.message(), "vertex index out of range");
}

#[test]
fn interleaved_buffer_layout_is_pos_color_uv_normal() {
    let mut builder = MeshBuilder::new();
    builder.add_full_vertice_info(
        Vertex::new(bits(1.0), bits(2.0), bits(3.0)),
        Color::new(bits(0.25), bits(0.5), bits(0.75)),
        UV::new(bits(0.125), bits(0.375)),
        Normal { x: bits(0.0), y: bits(0.0), z: bits(1.0) },
    );
    let mesh = builder.commit().unwrap();
    let expected: Vec<u32> = [1.0f32, 2.0, 3.0, 0.25, 0.5, 0.75, 1.0, 0.125, 0.375, 0.0, 0.0, 1.0]
        .iter()
        .map(|x| x.to_bits())
        .collect();
    assert_eq!(mesh.vertices, expected);
    assert_eq!(mesh.indices, vec![0]);
}

#[test]
fn committed_mesh_invariant_holds() {
    // Parallel attribute arrays and in-range indices, for a welded mesh.
    let mut builder = MeshBuilder::new();
    full_vertex(&mut builder, (0.0, 0.0, 0.0), (1.0, 1.0, 1.0), (0.0, 0.0));
    full_vertex(&mut builder, (1.0, 0.0, 0.0), (1.0, 1.0, 1.0), (1.0, 0.0));
    full_vertex(&mut builder, (0.0, 0.0, 0.0), (1.0, 1.0, 1.0), (0.0, 0.0));
    let mesh = builder.commit().unwrap();
    let n = mesh.positions.len();
    assert_eq!(mesh.colors.len(), n);
    assert_eq!(mesh.texture_coords.len(), n);
    assert_eq!(mesh.normals.len(), n);
    for ix in mesh.indices.iter() {
        assert!((*ix as usize) < n);
    }
    assert_eq!(mesh.vertices.len(), 12 * n);
}

#[test]
fn mesh_builder_auto_index() {
    // Six raw vertices with colours and texture coordinates, committed
    // without ever touching the welding entry point.  `commit` does not
    // derive an index sequence (indexing is the welding entry point's
    // job), so the committed mesh keeps the six raw vertices with no
    // indices, fills the default +Y normals, and derives the interleaved
    // buffer.
    let mut mesh_builder = MeshBuilder::new();
    mesh_builder.add_vertex(bits(0.5), bits(0.5), bits(0.0));
    mesh_builder.add_vertex(bits(0.5), bits(-0.5), bits(0.0));
    mesh_builder.add_vertex(bits(-0.5), bits(0.5), bits(0.0));
    mesh_builder.add_vertex(bits(0.5), bits(-0.5), bits(0.0));
    mesh_builder.add_vertex(bits(-0.5), bits(-0.5), bits(0.0));
    mesh_builder.add_vertex(bits(-0.5), bits(0.5), bits(0.0));
    mesh_builder.add_color(Color::new(bits(1.0), bits(0.0), bits(0.0)));
    mesh_builder.add_color(Color::new(bits(0.0), bits(1.0), bits(0.0)));
    mesh_builder.add_color(Color::new(bits(1.0), bits(1.0), bits(0.0)));
    mesh_builder.add_color(Color::new(bits(0.0), bits(1.0), bits(0.0)));
    mesh_builder.add_color(Color::new(bits(0.0), bits(0.0), bits(1.0)));
    mesh_builder.add_color(Color::new(bits(1.0), bits(1.0), bits(0.0)));
    mesh_builder.add_uv(UV::new(bits(1.0), bits(1.0)));
    mesh_builder.add_uv(UV::new(bits(1.0), bits(0.0)));
    mesh_builder.add_uv(UV::new(bits(0.0), bits(1.0)));
    mesh_builder.add_uv(UV::new(bits(1.0), bits(0.0)));
    mesh_builder.add_uv(UV::new(bits(0.0), bits(0.0)));
    mesh_builder.add_uv(UV::new(bits(0.0), bits(1.0)));
    let mesh = mesh_builder.commit().unwrap();
    assert!(mesh.indices.is_empty());
    assert_eq!(mesh.positions.len(), 6);
    assert_eq!(mesh.colors.len(), 6);
    assert_eq!(mesh.texture_coords.len(), 6);
    assert_eq!(mesh.normals.len(), 6);
    for n in mesh.normals.iter() {
        assert_eq!((n.x, n.y, n.z), (bits(0.0), bits(1.0), bits(0.0)));
    }
    assert_eq!(mesh.vertices.len(), 72);
}

#[test]
fn mesh_byte_layout_metadata() {
    let mesh = scene_engine::primitives::PrimitiveBuilder::quad();
    assert_eq!(Mesh::size_of_vertex(), 12);
    assert_eq!(Mesh::size_of_indice(), 4);
    assert_eq!(mesh.size_of_vertices(), 4 * 12 * 4);
    assert_eq!(mesh.size_of_indices(), 6 * 4);
    assert_eq!(mesh.size_of_stride(), 48);
    assert_eq!(mesh.vertex_offset(), 0);
    assert_eq!(mesh.color_offset(), 12);
    assert_eq!(mesh.uv_offset(), 28);
    assert_eq!(mesh.normal_offset(), 36);
    assert_eq!(Mesh::nb_elements_per_vertex(), 3);
    assert_eq!(Mesh::nb_elements_per_color(), 4);
    assert_eq!(Mesh::nb_elements_per_uv(), 2);
    assert_eq!(Mesh::nb_elements_per_normal(), 3);
}

#[test]
fn stride_counts_only_present_streams() {
    let mut builder = MeshBuilder::new();
    builder.add_vertex(bits(0.0), bits(0.0), bits(0.0));
    let mesh = builder.mesh.clone();
    // Positions only: no colour, texture or normal block in the stride.
    assert_eq!(mesh.size_of_stride(), 12);
    assert!(mesh.is_dirty());
}

#[test]
fn empty_mesh_is_well_formed() {
    let mesh = Mesh::new_empty();
    assert!(mesh.positions.is_empty());
    assert!(mesh.indices.is_empty());
    assert!(mesh.vertices.is_empty());
    assert!(mesh.is_dirty());
}
