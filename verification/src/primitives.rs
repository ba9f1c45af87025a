//! Hand-authored primitive meshes.
//!
//! A unit quad built from explicit attribute arrays and an index sequence,
//! and a plane and a cube fed through the mesh builder.  All coordinates
//! are single-precision bit patterns of the halves and ones the shapes are
//! made of.

use vstd::prelude::*;

use crate::mesh::Color;
use crate::mesh::Mesh;
use crate::mesh::MeshBuilder;
use crate::mesh::Normal;
use crate::mesh::UV;
use crate::mesh::Vertex;
use crate::mesh::commit_ok;
use crate::mesh::mesh_vertices_derived;
use crate::mesh::mesh_wf;
use crate::mesh::spec_committed;
use crate::mesh::up_normal;
use crate::mesh::white;
use crate::scalar::HALF_BITS;
use crate::scalar::NEG_HALF_BITS;
use crate::scalar::NEG_ONE_BITS;
use crate::scalar::ONE_BITS;
use crate::scalar::ZERO_BITS;
use vstd::pervasive::unreached;

verus! {

/// The quad positions data.
pub open spec fn quad_positions() -> Seq<Vertex> {
    seq![
        Vertex { x: HALF_BITS, y: HALF_BITS, z: ZERO_BITS },
        Vertex { x: HALF_BITS, y: NEG_HALF_BITS, z: ZERO_BITS },
        Vertex { x: NEG_HALF_BITS, y: NEG_HALF_BITS, z: ZERO_BITS },
        Vertex { x: NEG_HALF_BITS, y: HALF_BITS, z: ZERO_BITS },
    ]
}

/// The quad uvs data.
pub open spec fn quad_uvs() -> Seq<UV> {
    seq![
        UV { u: ONE_BITS, v: ONE_BITS },
        UV { u: ONE_BITS, v: ZERO_BITS },
        UV { u: ZERO_BITS, v: ZERO_BITS },
        UV { u: ZERO_BITS, v: ONE_BITS },
    ]
}

/// The plane positions data.
pub open spec fn plane_positions() -> Seq<Vertex> {
    seq![
        Vertex { x: NEG_HALF_BITS, y: HALF_BITS, z: NEG_HALF_BITS },
        Vertex { x: HALF_BITS, y: HALF_BITS, z: HALF_BITS },
        Vertex { x: HALF_BITS, y: HALF_BITS, z: NEG_HALF_BITS },
        Vertex { x: HALF_BITS, y: HALF_BITS, z: HALF_BITS },
        Vertex { x: NEG_HALF_BITS, y: HALF_BITS, z: NEG_HALF_BITS },
        Vertex { x: NEG_HALF_BITS, y: HALF_BITS, z: HALF_BITS },
    ]
}

/// The plane uvs data.
pub open spec fn plane_uvs() -> Seq<UV> {
    seq![
        UV { u: ZERO_BITS, v: ONE_BITS },
        UV { u: ONE_BITS, v: ZERO_BITS },
        UV { u: ONE_BITS, v: ONE_BITS },
        UV { u: ONE_BITS, v: ZERO_BITS },
        UV { u: ZERO_BITS, v: ONE_BITS },
        UV { u: ZERO_BITS, v: ZERO_BITS },
    ]
}

/// The cube positions data.
pub open spec fn cube_positions() -> Seq<Vertex> {
    seq![
        Vertex { x: NEG_HALF_BITS, y: NEG_HALF_BITS, z: NEG_HALF_BITS },
        Vertex { x: HALF_BITS, y: HALF_BITS, z: NEG_HALF_BITS },
        Vertex { x: HALF_BITS, y: NEG_HALF_BITS, z: NEG_HALF_BITS },
        Vertex { x: HALF_BITS, y: HALF_BITS, z: NEG_HALF_BITS },
        Vertex { x: NEG_HALF_BITS, y: NEG_HALF_BITS, z: NEG_HALF_BITS },
        Vertex { x: NEG_HALF_BITS, y: HALF_BITS, z: NEG_HALF_BITS },
        Vertex { x: NEG_HALF_BITS, y: NEG_HALF_BITS, z: HALF_BITS },
        Vertex { x: HALF_BITS, y: NEG_HALF_BITS, z: HALF_BITS },
        Vertex { x: HALF_BITS, y: HALF_BITS, z: HALF_BITS },
        Vertex { x: HALF_BITS, y: HALF_BITS, z: HALF_BITS },
        Vertex { x: NEG_HALF_BITS, y: HALF_BITS, z: HALF_BITS },
        Vertex { x: NEG_HALF_BITS, y: NEG_HALF_BITS, z: HALF_BITS },
        Vertex { x: NEG_HALF_BITS, y: HALF_BITS, z: HALF_BITS },
        Vertex { x: NEG_HALF_BITS, y: HALF_BITS, z: NEG_HALF_BITS },
        Vertex { x: NEG_HALF_BITS, y: NEG_HALF_BITS, z: NEG_HALF_BITS },
        Vertex { x: NEG_HALF_BITS, y: NEG_HALF_BITS, z: NEG_HALF_BITS },
        Vertex { x: NEG_HALF_BITS, y: NEG_HALF_BITS, z: HALF_BITS },
        Vertex { x: NEG_HALF_BITS, y: HALF_BITS, z: HALF_BITS },
        Vertex { x: HALF_BITS, y: HALF_BITS, z: HALF_BITS },
        Vertex { x: HALF_BITS, y: NEG_HALF_BITS, z: NEG_HALF_BITS },
        Vertex { x: HALF_BITS, y: HALF_BITS, z: NEG_HALF_BITS },
        Vertex { x: HALF_BITS, y: NEG_HALF_BITS, z: NEG_HALF_BITS },
        Vertex { x: HALF_BITS, y: HALF_BITS, z: HALF_BITS },
        Vertex { x: HALF_BITS, y: NEG_HALF_BITS, z: HALF_BITS },
        Vertex { x: NEG_HALF_BITS, y: NEG_HALF_BITS, z: NEG_HALF_BITS },
        Vertex { x: HALF_BITS, y: NEG_HALF_BITS, z: NEG_HALF_BITS },
        Vertex { x: HALF_BITS, y: NEG_HALF_BITS, z: HALF_BITS },
        Vertex { x: HALF_BITS, y: NEG_HALF_BITS, z: HALF_BITS },
        Vertex { x: NEG_HALF_BITS, y: NEG_HALF_BITS, z: HALF_BITS },
        Vertex { x: NEG_HALF_BITS, y: NEG_HALF_BITS, z: NEG_HALF_BITS },
        Vertex { x: NEG_HALF_BITS, y: HALF_BITS, z: NEG_HALF_BITS },
        Vertex { x: HALF_BITS, y: HALF_BITS, z: HALF_BITS },
        Vertex { x: HALF_BITS, y: HALF_BITS, z: NEG_HALF_BITS },
        Vertex { x: HALF_BITS, y: HALF_BITS, z: HALF_BITS },
        Vertex { x: NEG_HALF_BITS, y: HALF_BITS, z: NEG_HALF_BITS },
        Vertex { x: NEG_HALF_BITS, y: HALF_BITS, z: HALF_BITS },
    ]
}

/// The cube uvs data.
pub open spec fn cube_uvs() -> Seq<UV> {
    seq![
        UV { u: ZERO_BITS, v: ZERO_BITS },
        UV { u: ONE_BITS, v: ONE_BITS },
        UV { u: ONE_BITS, v: ZERO_BITS },
        UV { u: ONE_BITS, v: ONE_BITS },
        UV { u: ZERO_BITS, v: ZERO_BITS },
        UV { u: ZERO_BITS, v: ONE_BITS },
        UV { u: ZERO_BITS, v: ZERO_BITS },
        UV { u: ONE_BITS, v: ZERO_BITS },
        UV { u: ONE_BITS, v: ONE_BITS },
        UV { u: ONE_BITS, v: ONE_BITS },
        UV { u: ZERO_BITS, v: ONE_BITS },
        UV { u: ZERO_BITS, v: ZERO_BITS },
        UV { u: ONE_BITS, v: ZERO_BITS },
        UV { u: ONE_BITS, v: ONE_BITS },
        UV { u: ZERO_BITS, v: ONE_BITS },
        UV { u: ZERO_BITS, v: ONE_BITS },
        UV { u: ZERO_BITS, v: ZERO_BITS },
        UV { u: ONE_BITS, v: ZERO_BITS },
        UV { u: ONE_BITS, v: ZERO_BITS },
        UV { u: ZERO_BITS, v: ONE_BITS },
        UV { u: ONE_BITS, v: ONE_BITS },
        UV { u: ZERO_BITS, v: ONE_BITS },
        UV { u: ONE_BITS, v: ZERO_BITS },
        UV { u: ZERO_BITS, v: ZERO_BITS },
        UV { u: ZERO_BITS, v: ONE_BITS },
        UV { u: ONE_BITS, v: ONE_BITS },
        UV { u: ONE_BITS, v: ZERO_BITS },
        UV { u: ONE_BITS, v: ZERO_BITS },
        UV { u: ZERO_BITS, v: ZERO_BITS },
        UV { u: ZERO_BITS, v: ONE_BITS },
        UV { u: ZERO_BITS, v: ONE_BITS },
        UV { u: ONE_BITS, v: ZERO_BITS },
        UV { u: ONE_BITS, v: ONE_BITS },
        UV { u: ONE_BITS, v: ZERO_BITS },
        UV { u: ZERO_BITS, v: ONE_BITS },
        UV { u: ZERO_BITS, v: ZERO_BITS },
    ]
}

/// The cube normals data.
pub open spec fn cube_normals() -> Seq<Normal> {
    seq![
        Normal { x: ZERO_BITS, y: ZERO_BITS, z: NEG_ONE_BITS },
        Normal { x: ZERO_BITS, y: ZERO_BITS, z: NEG_ONE_BITS },
        Normal { x: ZERO_BITS, y: ZERO_BITS, z: NEG_ONE_BITS },
        Normal { x: ZERO_BITS, y: ZERO_BITS, z: NEG_ONE_BITS },
        Normal { x: ZERO_BITS, y: ZERO_BITS, z: NEG_ONE_BITS },
        Normal { x: ZERO_BITS, y: ZERO_BITS, z: NEG_ONE_BITS },
        Normal { x: ZERO_BITS, y: ZERO_BITS, z: ONE_BITS },
        Normal { x: ZERO_BITS, y: ZERO_BITS, z: ONE_BITS },
        Normal { x: ZERO_BITS, y: ZERO_BITS, z: ONE_BITS },
        Normal { x: ZERO_BITS, y: ZERO_BITS, z: ONE_BITS },
        Normal { x: ZERO_BITS, y: ZERO_BITS, z: ONE_BITS },
        Normal { x: ZERO_BITS, y: ZERO_BITS, z: ONE_BITS },
        Normal { x: NEG_ONE_BITS, y: ZERO_BITS, z: ZERO_BITS },
        Normal { x: NEG_ONE_BITS, y: ZERO_BITS, z: ZERO_BITS },
        Normal { x: NEG_ONE_BITS, y: ZERO_BITS, z: ZERO_BITS },
        Normal { x: NEG_ONE_BITS, y: ZERO_BITS, z: ZERO_BITS },
        Normal { x: NEG_ONE_BITS, y: ZERO_BITS, z: ZERO_BITS },
        Normal { x: NEG_ONE_BITS, y: ZERO_BITS, z: ZERO_BITS },
        Normal { x: ONE_BITS, y: ZERO_BITS, z: ZERO_BITS },
        Normal { x: ONE_BITS, y: ZERO_BITS, z: ZERO_BITS },
        Normal { x: ONE_BITS, y: ZERO_BITS, z: ZERO_BITS },
        Normal { x: ONE_BITS, y: ZERO_BITS, z: ZERO_BITS },
        Normal { x: ONE_BITS, y: ZERO_BITS, z: ZERO_BITS },
        Normal { x: ONE_BITS, y: ZERO_BITS, z: ZERO_BITS },
        Normal { x: ZERO_BITS, y: NEG_ONE_BITS, z: ZERO_BITS },
        Normal { x: ZERO_BITS, y: NEG_ONE_BITS, z: ZERO_BITS },
        Normal { x: ZERO_BITS, y: NEG_ONE_BITS, z: ZERO_BITS },
        Normal { x: ZERO_BITS, y: NEG_ONE_BITS, z: ZERO_BITS },
        Normal { x: ZERO_BITS, y: NEG_ONE_BITS, z: ZERO_BITS },
        Normal { x: ZERO_BITS, y: NEG_ONE_BITS, z: ZERO_BITS },
        Normal { x: ZERO_BITS, y: ONE_BITS, z: ZERO_BITS },
        Normal { x: ZERO_BITS, y: ONE_BITS, z: ZERO_BITS },
        Normal { x: ZERO_BITS, y: ONE_BITS, z: ZERO_BITS },
        Normal { x: ZERO_BITS, y: ONE_BITS, z: ZERO_BITS },
        Normal { x: ZERO_BITS, y: ONE_BITS, z: ZERO_BITS },
        Normal { x: ZERO_BITS, y: ONE_BITS, z: ZERO_BITS },
    ]
}


/// Builds hand-authored primitive meshes.
#[derive(Debug)]
pub struct PrimitiveBuilder {}

impl PrimitiveBuilder {
    /// A unit quad: four unique corner vertices, two triangles, six indices
    /// referencing only those four vertices, white and facing +Y.
    pub fn quad() -> (m: Mesh)
        ensures
            m.positions@ == quad_positions(),
            m.colors@ == Seq::new(4, |i: int| white()),
            m.texture_coords@ == quad_uvs(),
            m.normals@ == Seq::new(4, |i: int| up_normal()),
            m.indices@ == seq![0u32, 1u32, 3u32, 1u32, 2u32, 3u32],
            mesh_wf(m),
            mesh_vertices_derived(m),
            m.vertices@.len() == 12 * m.positions@.len(),
            m.dirty == true,
    {
        let indices: Vec<u32> = vec![0, 1, 3, 1, 2, 3];
        let positions = vec![
            Vertex::new(HALF_BITS, HALF_BITS, ZERO_BITS),
            Vertex::new(HALF_BITS, NEG_HALF_BITS, ZERO_BITS),
            Vertex::new(NEG_HALF_BITS, NEG_HALF_BITS, ZERO_BITS),
            Vertex::new(NEG_HALF_BITS, HALF_BITS, ZERO_BITS),
        ];
        let colors = vec![
            Color::new(ONE_BITS, ONE_BITS, ONE_BITS),
            Color::new(ONE_BITS, ONE_BITS, ONE_BITS),
            Color::new(ONE_BITS, ONE_BITS, ONE_BITS),
            Color::new(ONE_BITS, ONE_BITS, ONE_BITS),
        ];
        let uvs = vec![
            UV::new(ONE_BITS, ONE_BITS),
            UV::new(ONE_BITS, ZERO_BITS),
            UV::new(ZERO_BITS, ZERO_BITS),
            UV::new(ZERO_BITS, ONE_BITS),
        ];
        let normals = vec![
            Normal { x: ZERO_BITS, y: ONE_BITS, z: ZERO_BITS },
            Normal { x: ZERO_BITS, y: ONE_BITS, z: ZERO_BITS },
            Normal { x: ZERO_BITS, y: ONE_BITS, z: ZERO_BITS },
            Normal { x: ZERO_BITS, y: ONE_BITS, z: ZERO_BITS },
        ];
        proof {
            assert(positions@ =~= quad_positions());
            assert(colors@ =~= Seq::new(4, |i: int| white()));
            assert(uvs@ =~= quad_uvs());
            assert(normals@ =~= Seq::new(4, |i: int| up_normal()));
            assert(indices@ =~= seq![0u32, 1u32, 3u32, 1u32, 2u32, 3u32]);
        }
        Mesh::new(positions, colors, uvs, normals, indices)
    }

    /// A horizontal plane of two triangles at height one half, in the given
    /// colour, facing +Y.
    pub fn plane(color: Color) -> (m: Mesh)
        ensures
            m.positions@ == plane_positions(),
            m.colors@ == Seq::new(6, |i: int| color),
            m.texture_coords@ == plane_uvs(),
            m.normals@ == Seq::new(6, |i: int| up_normal()),
            m.indices@ == Seq::<u32>::empty(),
            mesh_wf(m),
            mesh_vertices_derived(m),
            m.vertices@.len() == 12 * m.positions@.len(),
            m.dirty == true,
    {
        let positions = vec![
            Vertex::new(NEG_HALF_BITS, HALF_BITS, NEG_HALF_BITS),
            Vertex::new(HALF_BITS, HALF_BITS, HALF_BITS),
            Vertex::new(HALF_BITS, HALF_BITS, NEG_HALF_BITS),
            Vertex::new(HALF_BITS, HALF_BITS, HALF_BITS),
            Vertex::new(NEG_HALF_BITS, HALF_BITS, NEG_HALF_BITS),
            Vertex::new(NEG_HALF_BITS, HALF_BITS, HALF_BITS),
        ];
        let uvs = vec![
            UV::new(ZERO_BITS, ONE_BITS),
            UV::new(ONE_BITS, ZERO_BITS),
            UV::new(ONE_BITS, ONE_BITS),
            UV::new(ONE_BITS, ZERO_BITS),
            UV::new(ZERO_BITS, ONE_BITS),
            UV::new(ZERO_BITS, ZERO_BITS),
        ];
        proof {
            assert(positions@ =~= plane_positions());
            assert(uvs@ =~= plane_uvs());
        }
        let mut mesh_builder = MeshBuilder::new();
        mesh_builder.add_vertex_from_vec(positions);
        mesh_builder.add_uv_from_vec(uvs);
        let mut i: usize = 0;
        while i < 6
            invariant
                i <= 6,
                mesh_builder.mesh.positions@ == plane_positions(),
                mesh_builder.mesh.texture_coords@ == plane_uvs(),
                mesh_builder.mesh.colors@ == Seq::new(i as nat, |j: int| color),
                mesh_builder.mesh.normals@ == Seq::new(i as nat, |j: int| up_normal()),
                mesh_builder.mesh.indices@ == Seq::<u32>::empty(),
                mesh_builder.mesh.vertices@ == Seq::<u32>::empty(),
                mesh_builder.mesh.dirty == true,
            decreases 6 - i,
        {
            mesh_builder.add_color(color);
            mesh_builder.add_normal(Normal { x: ZERO_BITS, y: ONE_BITS, z: ZERO_BITS });
            proof {
                assert(Seq::new(i as nat, |j: int| color).push(color) =~= Seq::new(
                    i as nat + 1,
                    |j: int| color,
                ));
                assert(Seq::new(i as nat, |j: int| up_normal()).push(up_normal()) =~= Seq::new(
                    i as nat + 1,
                    |j: int| up_normal(),
                ));
            }
            i = i + 1;
        }
        let ghost accumulated = mesh_builder.mesh;
        match mesh_builder.commit() {
            Ok(m) => {
                proof {
                    assert(commit_ok(accumulated));
                    assert(spec_committed(accumulated, m));
                }
                m
            },
            Err(_) => unreached(),
        }
    }

    /// An axis-aligned unit cube of twelve triangles, in the given colour,
    /// with one outward face normal per face.
    pub fn cube(color: Color) -> (m: Mesh)
        ensures
            m.positions@ == cube_positions(),
            m.colors@ == Seq::new(36, |i: int| color),
            m.texture_coords@ == cube_uvs(),
            m.normals@ == cube_normals(),
            m.indices@ == Seq::<u32>::empty(),
            mesh_wf(m),
            mesh_vertices_derived(m),
            m.vertices@.len() == 12 * m.positions@.len(),
            m.dirty == true,
    {
        let positions = vec![
            Vertex::new(NEG_HALF_BITS, NEG_HALF_BITS, NEG_HALF_BITS),
            Vertex::new(HALF_BITS, HALF_BITS, NEG_HALF_BITS),
            Vertex::new(HALF_BITS, NEG_HALF_BITS, NEG_HALF_BITS),
            Vertex::new(HALF_BITS, HALF_BITS, NEG_HALF_BITS),
            Vertex::new(NEG_HALF_BITS, NEG_HALF_BITS, NEG_HALF_BITS),
            Vertex::new(NEG_HALF_BITS, HALF_BITS, NEG_HALF_BITS),
            Vertex::new(NEG_HALF_BITS, NEG_HALF_BITS, HALF_BITS),
            Vertex::new(HALF_BITS, NEG_HALF_BITS, HALF_BITS),
            Vertex::new(HALF_BITS, HALF_BITS, HALF_BITS),
            Vertex::new(HALF_BITS, HALF_BITS, HALF_BITS),
            Vertex::new(NEG_HALF_BITS, HALF_BITS, HALF_BITS),
            Vertex::new(NEG_HALF_BITS, NEG_HALF_BITS, HALF_BITS),
            Vertex::new(NEG_HALF_BITS, HALF_BITS, HALF_BITS),
            Vertex::new(NEG_HALF_BITS, HALF_BITS, NEG_HALF_BITS),
            Vertex::new(NEG_HALF_BITS, NEG_HALF_BITS, NEG_HALF_BITS),
            Vertex::new(NEG_HALF_BITS, NEG_HALF_BITS, NEG_HALF_BITS),
            Vertex::new(NEG_HALF_BITS, NEG_HALF_BITS, HALF_BITS),
            Vertex::new(NEG_HALF_BITS, HALF_BITS, HALF_BITS),
            Vertex::new(HALF_BITS, HALF_BITS, HALF_BITS),
            Vertex::new(HALF_BITS, NEG_HALF_BITS, NEG_HALF_BITS),
            Vertex::new(HALF_BITS, HALF_BITS, NEG_HALF_BITS),
            Vertex::new(HALF_BITS, NEG_HALF_BITS, NEG_HALF_BITS),
            Vertex::new(HALF_BITS, HALF_BITS, HALF_BITS),
            Vertex::new(HALF_BITS, NEG_HALF_BITS, HALF_BITS),
            Vertex::new(NEG_HALF_BITS, NEG_HALF_BITS, NEG_HALF_BITS),
            Vertex::new(HALF_BITS, NEG_HALF_BITS, NEG_HALF_BITS),
            Vertex::new(HALF_BITS, NEG_HALF_BITS, HALF_BITS),
            Vertex::new(HALF_BITS, NEG_HALF_BITS, HALF_BITS),
            Vertex::new(NEG_HALF_BITS, NEG_HALF_BITS, HALF_BITS),
            Vertex::new(NEG_HALF_BITS, NEG_HALF_BITS, NEG_HALF_BITS),
            Vertex::new(NEG_HALF_BITS, HALF_BITS, NEG_HALF_BITS),
            Vertex::new(HALF_BITS, HALF_BITS, HALF_BITS),
            Vertex::new(HALF_BITS, HALF_BITS, NEG_HALF_BITS),
            Vertex::new(HALF_BITS, HALF_BITS, HALF_BITS),
            Vertex::new(NEG_HALF_BITS, HALF_BITS, NEG_HALF_BITS),
            Vertex::new(NEG_HALF_BITS, HALF_BITS, HALF_BITS),
        ];
        let uvs = vec![
            UV::new(ZERO_BITS, ZERO_BITS),
            UV::new(ONE_BITS, ONE_BITS),
            UV::new(ONE_BITS, ZERO_BITS),
            UV::new(ONE_BITS, ONE_BITS),
            UV::new(ZERO_BITS, ZERO_BITS),
            UV::new(ZERO_BITS, ONE_BITS),
            UV::new(ZERO_BITS, ZERO_BITS),
            UV::new(ONE_BITS, ZERO_BITS),
            UV::new(ONE_BITS, ONE_BITS),
            UV::new(ONE_BITS, ONE_BITS),
            UV::new(ZERO_BITS, ONE_BITS),
            UV::new(ZERO_BITS, ZERO_BITS),
            UV::new(ONE_BITS, ZERO_BITS),
            UV::new(ONE_BITS, ONE_BITS),
            UV::new(ZERO_BITS, ONE_BITS),
            UV::new(ZERO_BITS, ONE_BITS),
            UV::new(ZERO_BITS, ZERO_BITS),
            UV::new(ONE_BITS, ZERO_BITS),
            UV::new(ONE_BITS, ZERO_BITS),
            UV::new(ZERO_BITS, ONE_BITS),
            UV::new(ONE_BITS, ONE_BITS),
            UV::new(ZERO_BITS, ONE_BITS),
            UV::new(ONE_BITS, ZERO_BITS),
            UV::new(ZERO_BITS, ZERO_BITS),
            UV::new(ZERO_BITS, ONE_BITS),
            UV::new(ONE_BITS, ONE_BITS),
            UV::new(ONE_BITS, ZERO_BITS),
            UV::new(ONE_BITS, ZERO_BITS),
            UV::new(ZERO_BITS, ZERO_BITS),
            UV::new(ZERO_BITS, ONE_BITS),
            UV::new(ZERO_BITS, ONE_BITS),
            UV::new(ONE_BITS, ZERO_BITS),
            UV::new(ONE_BITS, ONE_BITS),
            UV::new(ONE_BITS, ZERO_BITS),
            UV::new(ZERO_BITS, ONE_BITS),
            UV::new(ZERO_BITS, ZERO_BITS),
        ];
        let norms = vec![
            Normal { x: ZERO_BITS, y: ZERO_BITS, z: NEG_ONE_BITS },
            Normal { x: ZERO_BITS, y: ZERO_BITS, z: NEG_ONE_BITS },
            Normal { x: ZERO_BITS, y: ZERO_BITS, z: NEG_ONE_BITS },
            Normal { x: ZERO_BITS, y: ZERO_BITS, z: NEG_ONE_BITS },
            Normal { x: ZERO_BITS, y: ZERO_BITS, z: NEG_ONE_BITS },
            Normal { x: ZERO_BITS, y: ZERO_BITS, z: NEG_ONE_BITS },
            Normal { x: ZERO_BITS, y: ZERO_BITS, z: ONE_BITS },
            Normal { x: ZERO_BITS, y: ZERO_BITS, z: ONE_BITS },
            Normal { x: ZERO_BITS, y: ZERO_BITS, z: ONE_BITS },
            Normal { x: ZERO_BITS, y: ZERO_BITS, z: ONE_BITS },
            Normal { x: ZERO_BITS, y: ZERO_BITS, z: ONE_BITS },
            Normal { x: ZERO_BITS, y: ZERO_BITS, z: ONE_BITS },
            Normal { x: NEG_ONE_BITS, y: ZERO_BITS, z: ZERO_BITS },
            Normal { x: NEG_ONE_BITS, y: ZERO_BITS, z: ZERO_BITS },
            Normal { x: NEG_ONE_BITS, y: ZERO_BITS, z: ZERO_BITS },
            Normal { x: NEG_ONE_BITS, y: ZERO_BITS, z: ZERO_BITS },
            Normal { x: NEG_ONE_BITS, y: ZERO_BITS, z: ZERO_BITS },
            Normal { x: NEG_ONE_BITS, y: ZERO_BITS, z: ZERO_BITS },
            Normal { x: ONE_BITS, y: ZERO_BITS, z: ZERO_BITS },
            Normal { x: ONE_BITS, y: ZERO_BITS, z: ZERO_BITS },
            Normal { x: ONE_BITS, y: ZERO_BITS, z: ZERO_BITS },
            Normal { x: ONE_BITS, y: ZERO_BITS, z: ZERO_BITS },
            Normal { x: ONE_BITS, y: ZERO_BITS, z: ZERO_BITS },
            Normal { x: ONE_BITS, y: ZERO_BITS, z: ZERO_BITS },
            Normal { x: ZERO_BITS, y: NEG_ONE_BITS, z: ZERO_BITS },
            Normal { x: ZERO_BITS, y: NEG_ONE_BITS, z: ZERO_BITS },
            Normal { x: ZERO_BITS, y: NEG_ONE_BITS, z: ZERO_BITS },
            Normal { x: ZERO_BITS, y: NEG_ONE_BITS, z: ZERO_BITS },
            Normal { x: ZERO_BITS, y: NEG_ONE_BITS, z: ZERO_BITS },
            Normal { x: ZERO_BITS, y: NEG_ONE_BITS, z: ZERO_BITS },
            Normal { x: ZERO_BITS, y: ONE_BITS, z: ZERO_BITS },
            Normal { x: ZERO_BITS, y: ONE_BITS, z: ZERO_BITS },
            Normal { x: ZERO_BITS, y: ONE_BITS, z: ZERO_BITS },
            Normal { x: ZERO_BITS, y: ONE_BITS, z: ZERO_BITS },
            Normal { x: ZERO_BITS, y: ONE_BITS, z: ZERO_BITS },
            Normal { x: ZERO_BITS, y: ONE_BITS, z: ZERO_BITS },
        ];
        proof {
            assert(positions@ =~= cube_positions());
            assert(uvs@ =~= cube_uvs());
            assert(norms@ =~= cube_normals());
        }
        let mut mesh_builder = MeshBuilder::new();
        let mut i: usize = 0;
        while i < 36
            invariant
                i <= 36,
                mesh_builder.mesh.colors@ == Seq::new(i as nat, |j: int| color),
                mesh_builder.mesh.positions@ == Seq::<Vertex>::empty(),
                mesh_builder.mesh.texture_coords@ == Seq::<UV>::empty(),
                mesh_builder.mesh.normals@ == Seq::<Normal>::empty(),
                mesh_builder.mesh.indices@ == Seq::<u32>::empty(),
                mesh_builder.mesh.vertices@ == Seq::<u32>::empty(),
                mesh_builder.mesh.dirty == true,
            decreases 36 - i,
        {
            mesh_builder.add_color(color);
            proof {
                assert(Seq::new(i as nat, |j: int| color).push(color) =~= Seq::new(
                    i as nat + 1,
                    |j: int| color,
                ));
            }
            i = i + 1;
        }
        mesh_builder.add_vertex_from_vec(positions);
        mesh_builder.add_uv_from_vec(uvs);
        mesh_builder.add_normal_from_vec(norms);
        let ghost accumulated = mesh_builder.mesh;
        match mesh_builder.commit() {
            Ok(m) => {
                proof {
                    assert(commit_ok(accumulated));
                    assert(spec_committed(accumulated, m));
                }
                m
            },
            Err(_) => unreached(),
        }
    }
}

} // verus!
