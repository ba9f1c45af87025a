use scene_engine::mesh::Color;
use scene_engine::primitives::PrimitiveBuilder;
use scene_engine::scalar;

#[test]
fn scalar_constants_are_the_ieee_bit_patterns() {
    assert_eq!(scalar::ZERO_BITS, 0.0f32.to_bits());
    assert_eq!(scalar::ONE_BITS, 1.0f32.to_bits());
    assert_eq!(scalar::NEG_ONE_BITS, (-1.0f32).to_bits());
    assert_eq!(scalar::HALF_BITS, 0.5f32.to_bits());
    assert_eq!(scalar::NEG_HALF_BITS, (-0.5f32).to_bits());
    assert_eq!(scalar::ONE_HALF_BITS, 1.5f32.to_bits());
    assert_eq!(scalar::TWO_BITS, 2.0f32.to_bits());
    assert_eq!(scalar::THREE_BITS, 3.0f32.to_bits());
}

#[test]
fn scalar_equality_follows_the_encoded_values() {
    let pos_zero = 0.0f32.to_bits();
    let neg_zero = (-0.0f32).to_bits();
    let nan = f32::NAN.to_bits();
    assert_ne!(pos_zero, neg_zero);
    assert!(scalar::scalar_eq(pos_zero, neg_zero));
    assert!(!scalar::scalar_eq(nan, nan));
    assert!(scalar::scalar_eq(1.5f32.to_bits(), 1.5f32.to_bits()));
    assert!(!scalar::scalar_eq(1.5f32.to_bits(), 2.5f32.to_bits()));
    assert!(scalar::is_nan_bits(nan));
    assert!(!scalar::is_nan_bits(pos_zero));
    assert!(scalar::is_zero_bits(neg_zero));
    assert!(!scalar::is_zero_bits(nan));
}

#[test]
fn quad_is_four_corners_two_triangles() {
    let quad = PrimitiveBuilder::quad();
    assert_eq!(quad.positions.len(), 4);
    assert_eq!(quad.indices, vec![0, 1, 3, 1, 2, 3]);
    assert_eq!(quad.positions[0].x, 0.5f32.to_bits());
    assert_eq!(quad.positions[2].x, (-0.5f32).to_bits());
    for c in quad.colors.iter() {
        assert_eq!(c.r, 1.0f32.to_bits());
        assert_eq!(c.a, 1.0f32.to_bits());
    }
    for index in quad.indices.iter() {
        assert!((*index as usize) < quad.positions.len());
    }
    assert_eq!(quad.vertices.len(), 4 * 12);
}

#[test]
fn cube_is_thirty_six_vertices_with_face_normals() {
    let color = Color::new(1.0f32.to_bits(), 0.5f32.to_bits(), 0.31f32.to_bits());
    let cube = PrimitiveBuilder::cube(color);
    assert_eq!(cube.positions.len(), 36);
    assert_eq!(cube.normals.len(), 36);
    assert_eq!(cube.colors.len(), 36);
    assert!(cube.indices.is_empty());
    // The first face looks down -Z, the last up +Y.
    assert_eq!(cube.normals[0].z, (-1.0f32).to_bits());
    assert_eq!(cube.normals[35].y, 1.0f32.to_bits());
    for c in cube.colors.iter() {
        assert_eq!((c.r, c.g, c.b), (color.r, color.g, color.b));
    }
    assert_eq!(cube.vertices.len(), 36 * 12);
}

#[test]
fn plane_is_six_vertices_facing_up() {
    let color = Color::new(0.2f32.to_bits(), 0.6f32.to_bits(), 0.3f32.to_bits());
    let plane = PrimitiveBuilder::plane(color);
    assert_eq!(plane.positions.len(), 6);
    for p in plane.positions.iter() {
        assert_eq!(p.y, 0.5f32.to_bits());
    }
    for n in plane.normals.iter() {
        assert_eq!((n.x, n.y, n.z), (0.0f32.to_bits(), 1.0f32.to_bits(), 0.0f32.to_bits()));
    }
}
