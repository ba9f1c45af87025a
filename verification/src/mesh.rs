//! Geometry construction and vertex welding.
//!
//! A `MeshBuilder` accumulates per-vertex attributes (position, colour,
//! texture coordinate, normal) stream by stream, or welds complete vertices
//! through `add_full_vertice_info`, which reuses the index of an earlier
//! vertex whose twelve attribute scalars are all equal.  `commit` fills the
//! default colour (opaque white) and default normal (+Y) for streams that
//! were never fed, validates the accumulated state, derives the interleaved
//! buffer, and hands out an immutable copy of the mesh.

use vstd::prelude::*;

use crate::component_map::copied_vec;
use crate::scalar::ONE_BITS;
use crate::scalar::ZERO_BITS;
use crate::scalar::spec_scalar_eq;
use crate::scalar::scalar_eq;

verus! {

/// An RGBA colour; components are single-precision bit patterns.
#[derive(Debug, Copy, Clone, PartialEq, Eq, Structural)]
pub struct Color {
    pub r: u32,
    pub g: u32,
    pub b: u32,
    pub a: u32,
}

impl Color {
    /// A colour from its three channels; the alpha channel is opaque.
    pub fn new(r: u32, g: u32, b: u32) -> (c: Color)
        ensures
            c == (Color { r, g, b, a: ONE_BITS }),
    {
        Color { r, g, b, a: ONE_BITS }
    }
}

/// A position in model space; components are single-precision bit patterns.
#[derive(Debug, Copy, Clone, PartialEq, Eq, Structural)]
pub struct Vertex {
    pub x: u32,
    pub y: u32,
    pub z: u32,
}

impl Vertex {
    pub fn new(x: u32, y: u32, z: u32) -> (v: Vertex)
        ensures
            v == (Vertex { x, y, z }),
    {
        Vertex { x, y, z }
    }
}

/// A texture coordinate; components are single-precision bit patterns.
#[derive(Debug, Copy, Clone, PartialEq, Eq, Structural)]
pub struct UV {
    pub u: u32,
    pub v: u32,
}

impl UV {
    pub fn new(u: u32, v: u32) -> (r: UV)
        ensures
            r == (UV { u, v }),
    {
        UV { u, v }
    }
}

/// A vertex normal; components are single-precision bit patterns.
#[derive(Debug, Copy, Clone, PartialEq, Eq, Structural)]
pub struct Normal {
    pub x: u32,
    pub y: u32,
    pub z: u32,
}

/// The composite welding key of one full vertex: position, colour, texture
/// coordinate and normal, in interleaving order.
pub type Vertice = [u32; 12];

/// The opaque white colour used when no colours were fed.
pub open spec fn white() -> Color {
    Color { r: ONE_BITS, g: ONE_BITS, b: ONE_BITS, a: ONE_BITS }
}

/// The +Y normal used when no normals were fed.
pub open spec fn up_normal() -> Normal {
    Normal { x: ZERO_BITS, y: ONE_BITS, z: ZERO_BITS }
}

/// The welding key of a full vertex, as a scalar sequence.
pub open spec fn spec_key(pos: Vertex, color: Color, uv: UV, norm: Normal) -> Seq<u32> {
    seq![
        pos.x,
        pos.y,
        pos.z,
        color.r,
        color.g,
        color.b,
        color.a,
        uv.u,
        uv.v,
        norm.x,
        norm.y,
        norm.z,
    ]
}

/// Two welding keys match when each of the twelve scalars is exactly equal,
/// with the equality of the encoded values.
pub open spec fn spec_vert_eq(a: Seq<u32>, b: Seq<u32>) -> bool {
    a.len() == 12 && b.len() == 12 && forall|k: int|
        0 <= k < 12 ==> spec_scalar_eq(#[trigger] a[k], #[trigger] b[k])
}

/// The first entry of the weld cache, scanning from position `i`, whose key
/// matches `key`; `Some` holds that entry's vertex index.
pub open spec fn cache_find_from(cache: Seq<(Vertice, u32)>, key: Seq<u32>, i: int) -> Option<u32>
    decreases cache.len() - i,
{
    if i < 0 || i >= cache.len() {
        None
    } else if spec_vert_eq(cache[i].0@, key) {
        Some(cache[i].1)
    } else {
        cache_find_from(cache, key, i + 1)
    }
}

/// The first weld-cache entry whose key matches `key`.
pub open spec fn cache_find(cache: Seq<(Vertice, u32)>, key: Seq<u32>) -> Option<u32> {
    cache_find_from(cache, key, 0)
}

/// The twelve interleaved scalars of one vertex, in
/// position, colour, texture-coordinate, normal order.
pub open spec fn vertex_lanes(p: Vertex, c: Color, t: UV, n: Normal) -> Seq<u32> {
    seq![p.x, p.y, p.z, c.r, c.g, c.b, c.a, t.u, t.v, n.x, n.y, n.z]
}

/// The interleaved buffer of the first `m` vertices.
pub open spec fn spec_interleaved_prefix(
    p: Seq<Vertex>,
    c: Seq<Color>,
    t: Seq<UV>,
    n: Seq<Normal>,
    m: int,
) -> Seq<u32>
    decreases m,
{
    if m <= 0 {
        Seq::empty()
    } else {
        spec_interleaved_prefix(p, c, t, n, m - 1) + vertex_lanes(p[m - 1], c[m - 1], t[m - 1], n[m - 1])
    }
}

/// The interleaved buffer of all vertices: the per-vertex attribute blocks
/// concatenated in position, colour, texture-coordinate, normal order.
pub open spec fn spec_interleaved(p: Seq<Vertex>, c: Seq<Color>, t: Seq<UV>, n: Seq<Normal>) -> Seq<
    u32,
> {
    spec_interleaved_prefix(p, c, t, n, p.len() as int)
}

/// The interleaved buffer of `m` vertices holds `12 * m` scalars.
pub proof fn lemma_interleaved_prefix_len(
    p: Seq<Vertex>,
    c: Seq<Color>,
    t: Seq<UV>,
    n: Seq<Normal>,
    m: int,
)
    requires
        m >= 0,
    ensures
        spec_interleaved_prefix(p, c, t, n, m).len() == 12 * m,
    decreases m,
{
    if m > 0 {
        lemma_interleaved_prefix_len(p, c, t, n, m - 1);
    }
}

/// What went wrong when a mesh was committed.
#[derive(Debug, Copy, Clone, PartialEq, Eq, Structural)]
pub enum MeshError {
    /// The attribute arrays did not all have one entry per vertex.
    AttributeLengthMismatch,
    /// An index referenced a vertex past the end of the attribute arrays.
    IndexOutOfRange,
}

impl MeshError {
    /// A diagnostic for the failed commit.
    pub fn message(&self) -> (m: &'static str)
        ensures
            *self == MeshError::AttributeLengthMismatch ==> m@ == "attribute arrays have mismatched lengths"@,
            *self == MeshError::IndexOutOfRange ==> m@ == "vertex index out of range"@,
    {
        match self {
            MeshError::AttributeLengthMismatch => "attribute arrays have mismatched lengths",
            MeshError::IndexOutOfRange => "vertex index out of range",
        }
    }
}

/// An indexed mesh: parallel attribute arrays with one entry per unique
/// vertex, an index sequence over them, and the derived interleaved buffer.
#[derive(Debug, Clone)]
pub struct Mesh {
    /// The derived interleaved buffer, twelve scalars per unique vertex.
    pub vertices: Vec<u32>,
    pub positions: Vec<Vertex>,
    pub colors: Vec<Color>,
    pub texture_coords: Vec<UV>,
    pub normals: Vec<Normal>,
    pub indices: Vec<u32>,
    pub dirty: bool,
}

/// The four attribute arrays have one entry per unique vertex.
pub open spec fn mesh_lengths_ok(m: Mesh) -> bool {
    m.colors@.len() == m.positions@.len() && m.texture_coords@.len() == m.positions@.len()
        && m.normals@.len() == m.positions@.len()
}

/// Every index references an existing unique vertex.
pub open spec fn mesh_indices_ok(m: Mesh) -> bool {
    forall|i: int| 0 <= i < m.indices@.len() ==> (#[trigger] m.indices@[i]) < m.positions@.len()
}

/// A structurally sound mesh: parallel attribute arrays of equal length and
/// in-range indices.
pub open spec fn mesh_wf(m: Mesh) -> bool {
    mesh_lengths_ok(m) && mesh_indices_ok(m)
}

/// The interleaved buffer is exactly the one derived from the attribute
/// arrays.
pub open spec fn mesh_vertices_derived(m: Mesh) -> bool {
    m.vertices@ == spec_interleaved(m.positions@, m.colors@, m.texture_coords@, m.normals@)
}

impl Mesh {
    pub fn new_empty() -> (m: Mesh)
        ensures
            m.vertices@ == Seq::<u32>::empty(),
            m.positions@ == Seq::<Vertex>::empty(),
            m.colors@ == Seq::<Color>::empty(),
            m.texture_coords@ == Seq::<UV>::empty(),
            m.normals@ == Seq::<Normal>::empty(),
            m.indices@ == Seq::<u32>::empty(),
            m.dirty == true,
            mesh_wf(m),
            mesh_vertices_derived(m),
    {
        Mesh {
            vertices: Vec::new(),
            positions: Vec::new(),
            colors: Vec::new(),
            texture_coords: Vec::new(),
            normals: Vec::new(),
            indices: Vec::new(),
            dirty: true,
        }
    }

    /// A mesh from complete attribute arrays and an index sequence; the
    /// interleaved buffer is derived here.
    pub fn new(
        vertex_coords: Vec<Vertex>,
        colors: Vec<Color>,
        texture_coords: Vec<UV>,
        normals: Vec<Normal>,
        vertex_indices: Vec<u32>,
    ) -> (m: Mesh)
        requires
            colors@.len() == vertex_coords@.len(),
            texture_coords@.len() == vertex_coords@.len(),
            normals@.len() == vertex_coords@.len(),
            forall|i: int|
                0 <= i < vertex_indices@.len() ==> (#[trigger] vertex_indices@[i])
                    < vertex_coords@.len(),
        ensures
            m.positions@ == vertex_coords@,
            m.colors@ == colors@,
            m.texture_coords@ == texture_coords@,
            m.normals@ == normals@,
            m.indices@ == vertex_indices@,
            m.vertices@ == spec_interleaved(vertex_coords@, colors@, texture_coords@, normals@),
            m.vertices@.len() == 12 * vertex_coords@.len(),
            m.dirty == true,
            mesh_wf(m),
            mesh_vertices_derived(m),
    {
        proof {
            lemma_interleaved_prefix_len(
                vertex_coords@,
                colors@,
                texture_coords@,
                normals@,
                vertex_coords@.len() as int,
            );
        }
        let vertices = Mesh::build_vertices(&vertex_coords, &colors, &texture_coords, &normals);
        Mesh {
            vertices,
            positions: vertex_coords,
            colors,
            texture_coords,
            normals,
            indices: vertex_indices,
            dirty: true,
        }
    }

    pub fn is_dirty(&self) -> (r: bool)
        ensures
            r == self.dirty,
    {
        self.dirty
    }

    /// Derives the interleaved buffer from parallel attribute arrays.
    fn build_vertices(
        positions: &Vec<Vertex>,
        colors: &Vec<Color>,
        uvs: &Vec<UV>,
        normals: &Vec<Normal>,
    ) -> (r: Vec<u32>)
        requires
            colors@.len() == positions@.len(),
            uvs@.len() == positions@.len(),
            normals@.len() == positions@.len(),
        ensures
            r@ == spec_interleaved(positions@, colors@, uvs@, normals@),
    {
        let mut vertices: Vec<u32> = Vec::new();
        let n = positions.len();
        let mut i: usize = 0;
        while i < n
            invariant
                i <= n,
                n == positions@.len(),
                colors@.len() == positions@.len(),
                uvs@.len() == positions@.len(),
                normals@.len() == positions@.len(),
                vertices@ == spec_interleaved_prefix(positions@, colors@, uvs@, normals@, i as int),
            decreases n - i,
        {
            let ghost before = vertices@;
            vertices.push(positions[i].x);
            vertices.push(positions[i].y);
            vertices.push(positions[i].z);
            vertices.push(colors[i].r);
            vertices.push(colors[i].g);
            vertices.push(colors[i].b);
            vertices.push(colors[i].a);
            vertices.push(uvs[i].u);
            vertices.push(uvs[i].v);
            vertices.push(normals[i].x);
            vertices.push(normals[i].y);
            vertices.push(normals[i].z);
            proof {
                assert(vertices@ =~= before + vertex_lanes(
                    positions@[i as int],
                    colors@[i as int],
                    uvs@[i as int],
                    normals@[i as int],
                ));
            }
            i = i + 1;
        }
        vertices
    }

    /// A reference to the derived interleaved buffer.
    pub fn get_vertices_data(&self) -> (r: &Vec<u32>)
        ensures
            r@ == self.vertices@,
    {
        &self.vertices
    }

    /// Byte size of one position block: three four-byte scalars.
    pub fn size_of_vertex() -> (r: usize)
        ensures
            r == 12,
    {
        12
    }

    /// Byte size of the whole interleaved buffer.
    pub fn size_of_vertices(&self) -> (r: usize)
        requires
            self.vertices@.len() * 4 <= usize::MAX,
        ensures
            r == self.vertices@.len() * 4,
    {
        self.vertices.len() * 4
    }

    /// Byte size of one index: one four-byte scalar.
    pub fn size_of_indice() -> (r: usize)
        ensures
            r == 4,
    {
        4
    }

    /// Byte size of the whole index sequence.
    pub fn size_of_indices(&self) -> (r: usize)
        requires
            self.indices@.len() * 4 <= usize::MAX,
        ensures
            r == self.indices@.len() * 4,
    {
        self.indices.len() * 4
    }

    /// Byte width of one interleaved vertex: the position block plus the
    /// blocks of every attribute stream that is present.
    pub fn size_of_stride(&self) -> (r: usize)
        ensures
            r == spec_stride(*self),
    {
        let mut stride: usize = 12;
        if self.colors.len() > 0 {
            stride = stride + 16;
        }
        if self.texture_coords.len() > 0 {
            stride = stride + 8;
        }
        if self.normals.len() > 0 {
            stride = stride + 12;
        }
        stride
    }

    pub fn nb_elements_per_vertex() -> (r: i32)
        ensures
            r == 3,
    {
        3
    }

    pub fn nb_elements_per_color() -> (r: i32)
        ensures
            r == 4,
    {
        4
    }

    pub fn nb_elements_per_uv() -> (r: i32)
        ensures
            r == 2,
    {
        2
    }

    pub fn nb_elements_per_normal() -> (r: i32)
        ensures
            r == 3,
    {
        3
    }

    /// Byte offset of the position block inside one interleaved vertex.
    pub fn vertex_offset(&self) -> (r: usize)
        ensures
            r == 0,
    {
        0
    }

    /// Byte offset of the colour block inside one interleaved vertex.
    pub fn color_offset(&self) -> (r: usize)
        ensures
            r == 12,
    {
        12
    }

    /// Byte offset of the texture-coordinate block inside one interleaved
    /// vertex.
    pub fn uv_offset(&self) -> (r: usize)
        ensures
            r == 28,
    {
        28
    }

    /// Byte offset of the normal block inside one interleaved vertex.
    pub fn normal_offset(&self) -> (r: usize)
        ensures
            r == 36,
    {
        36
    }
}

/// Byte width of one interleaved vertex of `m`.
pub open spec fn spec_stride(m: Mesh) -> int {
    12 + (if m.colors@.len() > 0 {
        16int
    } else {
        0int
    }) + (if m.texture_coords@.len() > 0 {
        8int
    } else {
        0int
    }) + (if m.normals@.len() > 0 {
        12int
    } else {
        0int
    })
}

/// The colour array `commit` works with: the accumulated colours, or one
/// opaque white entry per position when none were accumulated.
pub open spec fn spec_filled_colors(m: Mesh) -> Seq<Color> {
    if m.colors@.len() == 0 {
        Seq::new(m.positions@.len(), |i: int| white())
    } else {
        m.colors@
    }
}

/// The normal array `commit` works with: the accumulated normals, or one +Y
/// entry per position when none were accumulated.
pub open spec fn spec_filled_normals(m: Mesh) -> Seq<Normal> {
    if m.normals@.len() == 0 {
        Seq::new(m.positions@.len(), |i: int| up_normal())
    } else {
        m.normals@
    }
}

/// After default fill, every attribute array must have one entry per
/// position.
pub open spec fn commit_lengths_ok(m: Mesh) -> bool {
    spec_filled_colors(m).len() == m.positions@.len() && m.texture_coords@.len()
        == m.positions@.len() && spec_filled_normals(m).len() == m.positions@.len()
}

/// A builder state that `commit` accepts.
pub open spec fn commit_ok(m: Mesh) -> bool {
    commit_lengths_ok(m) && mesh_indices_ok(m)
}

/// `c` is the mesh that committing the accumulated state `m` yields:
/// defaults filled, interleaved buffer derived, indices kept.
pub open spec fn spec_committed(m: Mesh, c: Mesh) -> bool {
    c.positions@ == m.positions@ && c.colors@ == spec_filled_colors(m) && c.texture_coords@
        == m.texture_coords@ && c.normals@ == spec_filled_normals(m) && c.indices@ == m.indices@
        && c.vertices@ == spec_interleaved(
        m.positions@,
        spec_filled_colors(m),
        m.texture_coords@,
        spec_filled_normals(m),
    ) && c.dirty == m.dirty
}

/// Accumulates attribute streams and welds full vertices into an indexed
/// mesh.
#[derive(Debug, Clone)]
pub struct MeshBuilder {
    pub mesh: Mesh,
    /// The next vertex index to assign.
    pub index: u32,
    /// Welding keys of the vertices seen so far, each with its index.
    pub cache: Vec<(Vertice, u32)>,
}

/// Indices are assigned sequentially: the cache entry at position `i` holds
/// index `i`, and the next index is the cache length.
pub open spec fn builder_wf(b: MeshBuilder) -> bool {
    b.index as int == b.cache@.len() && forall|i: int|
        0 <= i < b.cache@.len() ==> (#[trigger] b.cache@[i]).1 == i
}

/// All builder fields other than the accumulated mesh are equal.
pub open spec fn builder_same_but_mesh(a: MeshBuilder, b: MeshBuilder) -> bool {
    a.index == b.index && a.cache == b.cache
}

/// All mesh fields other than `positions` are equal.
pub open spec fn mesh_same_but_positions(a: Mesh, b: Mesh) -> bool {
    a.vertices == b.vertices && a.colors == b.colors && a.texture_coords == b.texture_coords
        && a.normals == b.normals && a.indices == b.indices && a.dirty == b.dirty
}

/// All mesh fields other than `colors` are equal.
pub open spec fn mesh_same_but_colors(a: Mesh, b: Mesh) -> bool {
    a.vertices == b.vertices && a.positions == b.positions && a.texture_coords == b.texture_coords
        && a.normals == b.normals && a.indices == b.indices && a.dirty == b.dirty
}

/// All mesh fields other than `texture_coords` are equal.
pub open spec fn mesh_same_but_uvs(a: Mesh, b: Mesh) -> bool {
    a.vertices == b.vertices && a.positions == b.positions && a.colors == b.colors && a.normals
        == b.normals && a.indices == b.indices && a.dirty == b.dirty
}

/// All mesh fields other than `normals` are equal.
pub open spec fn mesh_same_but_normals(a: Mesh, b: Mesh) -> bool {
    a.vertices == b.vertices && a.positions == b.positions && a.colors == b.colors
        && a.texture_coords == b.texture_coords && a.indices == b.indices && a.dirty == b.dirty
}

/// All mesh fields other than `indices` are equal.
pub open spec fn mesh_same_but_indices(a: Mesh, b: Mesh) -> bool {
    a.vertices == b.vertices && a.positions == b.positions && a.colors == b.colors
        && a.texture_coords == b.texture_coords && a.normals == b.normals && a.dirty == b.dirty
}

impl MeshBuilder {
    pub fn new() -> (b: MeshBuilder)
        ensures
            b.mesh.vertices@ == Seq::<u32>::empty(),
            b.mesh.positions@ == Seq::<Vertex>::empty(),
            b.mesh.colors@ == Seq::<Color>::empty(),
            b.mesh.texture_coords@ == Seq::<UV>::empty(),
            b.mesh.normals@ == Seq::<Normal>::empty(),
            b.mesh.indices@ == Seq::<u32>::empty(),
            b.mesh.dirty == true,
            b.index == 0,
            b.cache@ == Seq::<(Vertice, u32)>::empty(),
            builder_wf(b),
    {
        MeshBuilder { mesh: Mesh::new_empty(), index: 0, cache: Vec::new() }
    }

    /// Appends one raw position.
    pub fn add_vertex(&mut self, x: u32, y: u32, z: u32)
        ensures
            final(self).mesh.positions@ == old(self).mesh.positions@.push(Vertex { x, y, z }),
            mesh_same_but_positions(final(self).mesh, old(self).mesh),
            builder_same_but_mesh(*final(self), *old(self)),
    {
        self.mesh.positions.push(Vertex::new(x, y, z));
    }

    /// Appends one raw colour.
    pub fn add_color(&mut self, color: Color)
        ensures
            final(self).mesh.colors@ == old(self).mesh.colors@.push(color),
            mesh_same_but_colors(final(self).mesh, old(self).mesh),
            builder_same_but_mesh(*final(self), *old(self)),
    {
        self.mesh.colors.push(color);
    }

    /// Appends one raw texture coordinate.
    pub fn add_uv(&mut self, uv: UV)
        ensures
            final(self).mesh.texture_coords@ == old(self).mesh.texture_coords@.push(uv),
            mesh_same_but_uvs(final(self).mesh, old(self).mesh),
            builder_same_but_mesh(*final(self), *old(self)),
    {
        self.mesh.texture_coords.push(uv);
    }

    /// Appends one raw normal.
    pub fn add_normal(&mut self, norm: Normal)
        ensures
            final(self).mesh.normals@ == old(self).mesh.normals@.push(norm),
            mesh_same_but_normals(final(self).mesh, old(self).mesh),
            builder_same_but_mesh(*final(self), *old(self)),
    {
        self.mesh.normals.push(norm);
    }

    /// Appends one raw vertex index.
    pub fn add_index(&mut self, index: u32)
        ensures
            final(self).mesh.indices@ == old(self).mesh.indices@.push(index),
            mesh_same_but_indices(final(self).mesh, old(self).mesh),
            builder_same_but_mesh(*final(self), *old(self)),
    {
        self.mesh.indices.push(index);
    }

    /// Appends a batch of raw positions, in order.
    pub fn add_vertex_from_vec(&mut self, vertex: Vec<Vertex>)
        ensures
            final(self).mesh.positions@ == old(self).mesh.positions@ + vertex@,
            mesh_same_but_positions(final(self).mesh, old(self).mesh),
            builder_same_but_mesh(*final(self), *old(self)),
    {
        let ghost base = self.mesh.positions@;
        let ghost orig = *self;
        let n = vertex.len();
        let mut i: usize = 0;
        while i < n
            invariant
                i <= n,
                n == vertex@.len(),
                self.mesh.positions@ == base + vertex@.take(i as int),
                mesh_same_but_positions(self.mesh, orig.mesh),
                builder_same_but_mesh(*self, orig),
            decreases n - i,
        {
            self.mesh.positions.push(vertex[i]);
            proof {
                assert(base + vertex@.take(i as int) + seq![vertex@[i as int]] =~= base
                    + vertex@.take(i as int + 1));
            }
            i = i + 1;
        }
        proof {
            assert(vertex@.take(n as int) =~= vertex@);
        }
    }

    /// Appends a batch of raw colours, in order.
    pub fn add_color_from_vec(&mut self, color: Vec<Color>)
        ensures
            final(self).mesh.colors@ == old(self).mesh.colors@ + color@,
            mesh_same_but_colors(final(self).mesh, old(self).mesh),
            builder_same_but_mesh(*final(self), *old(self)),
    {
        let ghost base = self.mesh.colors@;
        let ghost orig = *self;
        let n = color.len();
        let mut i: usize = 0;
        while i < n
            invariant
                i <= n,
                n == color@.len(),
                self.mesh.colors@ == base + color@.take(i as int),
                mesh_same_but_colors(self.mesh, orig.mesh),
                builder_same_but_mesh(*self, orig),
            decreases n - i,
        {
            self.mesh.colors.push(color[i]);
            proof {
                assert(base + color@.take(i as int) + seq![color@[i as int]] =~= base + color@.take(
                    i as int + 1,
                ));
            }
            i = i + 1;
        }
        proof {
            assert(color@.take(n as int) =~= color@);
        }
    }

    /// Appends a batch of raw texture coordinates, in order.
    pub fn add_uv_from_vec(&mut self, uv: Vec<UV>)
        ensures
            final(self).mesh.texture_coords@ == old(self).mesh.texture_coords@ + uv@,
            mesh_same_but_uvs(final(self).mesh, old(self).mesh),
            builder_same_but_mesh(*final(self), *old(self)),
    {
        let ghost base = self.mesh.texture_coords@;
        let ghost orig = *self;
        let n = uv.len();
        let mut i: usize = 0;
        while i < n
            invariant
                i <= n,
                n == uv@.len(),
                self.mesh.texture_coords@ == base + uv@.take(i as int),
                mesh_same_but_uvs(self.mesh, orig.mesh),
                builder_same_but_mesh(*self, orig),
            decreases n - i,
        {
            self.mesh.texture_coords.push(uv[i]);
            proof {
                assert(base + uv@.take(i as int) + seq![uv@[i as int]] =~= base + uv@.take(
                    i as int + 1,
                ));
            }
            i = i + 1;
        }
        proof {
            assert(uv@.take(n as int) =~= uv@);
        }
    }

    /// Appends a batch of raw normals, in order.
    pub fn add_normal_from_vec(&mut self, norm: Vec<Normal>)
        ensures
            final(self).mesh.normals@ == old(self).mesh.normals@ + norm@,
            mesh_same_but_normals(final(self).mesh, old(self).mesh),
            builder_same_but_mesh(*final(self), *old(self)),
    {
        let ghost base = self.mesh.normals@;
        let ghost orig = *self;
        let n = norm.len();
        let mut i: usize = 0;
        while i < n
            invariant
                i <= n,
                n == norm@.len(),
                self.mesh.normals@ == base + norm@.take(i as int),
                mesh_same_but_normals(self.mesh, orig.mesh),
                builder_same_but_mesh(*self, orig),
            decreases n - i,
        {
            self.mesh.normals.push(norm[i]);
            proof {
                assert(base + norm@.take(i as int) + seq![norm@[i as int]] =~= base + norm@.take(
                    i as int + 1,
                ));
            }
            i = i + 1;
        }
        proof {
            assert(norm@.take(n as int) =~= norm@);
        }
    }

    /// Exact equality of two welding keys.
    fn vertice_eq(a: &Vertice, b: &Vertice) -> (r: bool)
        ensures
            r == spec_vert_eq(a@, b@),
    {
        let mut k: usize = 0;
        while k < 12
            invariant
                k <= 12,
                forall|kk: int|
                    0 <= kk < k ==> spec_scalar_eq(#[trigger] a@[kk], #[trigger] b@[kk]),
            decreases 12 - k,
        {
            if !scalar_eq(a[k], b[k]) {
                return false;
            }
            k = k + 1;
        }
        true
    }

    /// The welding entry point: appends the index of an earlier vertex whose
    /// twelve attribute scalars all match, or assigns the next sequential
    /// index to a new unique vertex and appends its attributes to all four
    /// streams.
    pub fn add_full_vertice_info(&mut self, pos: Vertex, color: Color, uv: UV, norm: Normal)
        requires
            builder_wf(*old(self)),
            old(self).index < u32::MAX,
        ensures
            builder_wf(*final(self)),
            match cache_find(old(self).cache@, spec_key(pos, color, uv, norm)) {
                Some(ix) => {
                    &&& final(self).mesh.indices@ == old(self).mesh.indices@.push(ix)
                    &&& mesh_same_but_indices(final(self).mesh, old(self).mesh)
                    &&& builder_same_but_mesh(*final(self), *old(self))
                },
                None => {
                    &&& final(self).mesh.positions@ == old(self).mesh.positions@.push(pos)
                    &&& final(self).mesh.colors@ == old(self).mesh.colors@.push(color)
                    &&& final(self).mesh.texture_coords@ == old(self).mesh.texture_coords@.push(uv)
                    &&& final(self).mesh.normals@ == old(self).mesh.normals@.push(norm)
                    &&& final(self).mesh.indices@ == old(self).mesh.indices@.push(old(self).index)
                    &&& final(self).mesh.vertices == old(self).mesh.vertices
                    &&& final(self).mesh.dirty == old(self).mesh.dirty
                    &&& final(self).index == old(self).index + 1
                    &&& final(self).cache@.len() == old(self).cache@.len() + 1
                    &&& final(self).cache@[old(self).cache@.len() as int].0@ == spec_key(
                        pos,
                        color,
                        uv,
                        norm,
                    )
                    &&& final(self).cache@[old(self).cache@.len() as int].1 == old(self).index
                    &&& final(self).cache@.take(old(self).cache@.len() as int) == old(self).cache@
                },
            },
    {
        let new_vert: Vertice = [
            pos.x,
            pos.y,
            pos.z,
            color.r,
            color.g,
            color.b,
            color.a,
            uv.u,
            uv.v,
            norm.x,
            norm.y,
            norm.z,
        ];
        proof {
            assert(new_vert@ =~= spec_key(pos, color, uv, norm));
        }
        let mut found: Option<u32> = None;
        let n = self.cache.len();
        let mut j: usize = 0;
        while j < n && found.is_none()
            invariant
                j <= n,
                n == self.cache@.len(),
                new_vert@ == spec_key(pos, color, uv, norm),
                match found {
                    None => cache_find(self.cache@, new_vert@) == cache_find_from(
                        self.cache@,
                        new_vert@,
                        j as int,
                    ),
                    Some(ix) => cache_find(self.cache@, new_vert@) == Some(ix),
                },
            decreases n - j,
        {
            if Self::vertice_eq(&self.cache[j].0, &new_vert) {
                found = Some(self.cache[j].1);
            }
            j = j + 1;
        }
        match found {
            Some(ix) => {
                self.add_index(ix);
            },
            None => {
                let ghost cache0 = self.cache@;
                let idx = self.index;
                self.cache.push((new_vert, idx));
                proof {
                    assert(self.cache@.take(cache0.len() as int) =~= cache0);
                }
                self.add_vertex(pos.x, pos.y, pos.z);
                self.add_color(color);
                self.add_uv(uv);
                self.add_normal(norm);
                self.index = idx + 1;
                self.add_index(idx);
            },
        }
    }

    /// Finalises the accumulated state: fills the default colour and normal
    /// for streams that were never fed, validates that every attribute array
    /// has one entry per vertex and that every index is in range, derives
    /// the interleaved buffer, and returns an immutable copy of the mesh.
    #[verifier::loop_isolation(false)]
    pub fn commit(&mut self) -> (r: Result<Mesh, MeshError>)
        ensures
            builder_same_but_mesh(*final(self), *old(self)),
            final(self).mesh.positions == old(self).mesh.positions,
            final(self).mesh.texture_coords == old(self).mesh.texture_coords,
            final(self).mesh.indices == old(self).mesh.indices,
            final(self).mesh.dirty == old(self).mesh.dirty,
            final(self).mesh.colors@ == spec_filled_colors(old(self).mesh),
            final(self).mesh.normals@ == spec_filled_normals(old(self).mesh),
            commit_ok(old(self).mesh) ==> {
                &&& r is Ok
                &&& spec_committed(old(self).mesh, r->Ok_0)
                &&& mesh_wf(r->Ok_0)
                &&& r->Ok_0.vertices@.len() == 12 * old(self).mesh.positions@.len()
                &&& spec_committed(old(self).mesh, final(self).mesh)
            },
            !commit_ok(old(self).mesh) ==> {
                &&& r is Err
                &&& final(self).mesh.vertices == old(self).mesh.vertices
                &&& (r->Err_0 == MeshError::AttributeLengthMismatch <==> !commit_lengths_ok(
                    old(self).mesh,
                ))
                &&& (r->Err_0 == MeshError::IndexOutOfRange <==> commit_lengths_ok(old(self).mesh)
                    && !mesh_indices_ok(old(self).mesh))
            },
    {
        let ghost m0 = self.mesh;
        let ghost orig = *self;
        if self.mesh.colors.len() == 0 {
            let n = self.mesh.positions.len();
            let mut i: usize = 0;
            while i < n
                invariant
                    i <= n,
                    self.mesh.colors@ == Seq::new(i as nat, |jj: int| white()),
                    mesh_same_but_colors(self.mesh, orig.mesh),
                    builder_same_but_mesh(*self, orig),
                    n == self.mesh.positions@.len(),
                decreases n - i,
            {
                self.mesh.colors.push(Color::new(ONE_BITS, ONE_BITS, ONE_BITS));
                proof {
                    assert(Seq::new(i as nat, |jj: int| white()).push(white()) =~= Seq::new(
                        i as nat + 1,
                        |jj: int| white(),
                    ));
                }
                i = i + 1;
            }
        }
        proof {
            assert(self.mesh.colors@ == spec_filled_colors(m0));
        }
        if self.mesh.normals.len() == 0 {
            let ghost m1 = self.mesh;
            let n = self.mesh.positions.len();
            let mut i: usize = 0;
            while i < n
                invariant
                    i <= n,
                    self.mesh.normals@ == Seq::new(i as nat, |jj: int| up_normal()),
                    mesh_same_but_normals(self.mesh, m1),
                    builder_same_but_mesh(*self, orig),
                    n == self.mesh.positions@.len(),
                decreases n - i,
            {
                self.mesh.normals.push(Normal { x: ZERO_BITS, y: ONE_BITS, z: ZERO_BITS });
                proof {
                    assert(Seq::new(i as nat, |jj: int| up_normal()).push(up_normal()) =~= Seq::new(
                        i as nat + 1,
                        |jj: int| up_normal(),
                    ));
                }
                i = i + 1;
            }
        }
        proof {
            assert(self.mesh.normals@ == spec_filled_normals(m0));
        }
        if self.mesh.colors.len() != self.mesh.positions.len() || self.mesh.texture_coords.len()
            != self.mesh.positions.len() || self.mesh.normals.len() != self.mesh.positions.len() {
            return Err(MeshError::AttributeLengthMismatch);
        }
        let nidx = self.mesh.indices.len();
        let npos = self.mesh.positions.len();
        let mut i: usize = 0;
        while i < nidx
            invariant
                i <= nidx,
                nidx == self.mesh.indices@.len(),
                npos == self.mesh.positions@.len(),
                forall|k: int| 0 <= k < i ==> (#[trigger] self.mesh.indices@[k]) < npos,
            decreases nidx - i,
        {
            if self.mesh.indices[i] as usize >= npos {
                return Err(MeshError::IndexOutOfRange);
            }
            i = i + 1;
        }
        proof {
            lemma_interleaved_prefix_len(
                self.mesh.positions@,
                self.mesh.colors@,
                self.mesh.texture_coords@,
                self.mesh.normals@,
                self.mesh.positions@.len() as int,
            );
        }
        let derived = Mesh::build_vertices(
            &self.mesh.positions,
            &self.mesh.colors,
            &self.mesh.texture_coords,
            &self.mesh.normals,
        );
        self.mesh.vertices = derived;
        let committed = Mesh {
            vertices: copied_vec(&self.mesh.vertices),
            positions: copied_vec(&self.mesh.positions),
            colors: copied_vec(&self.mesh.colors),
            texture_coords: copied_vec(&self.mesh.texture_coords),
            normals: copied_vec(&self.mesh.normals),
            indices: copied_vec(&self.mesh.indices),
            dirty: self.mesh.dirty,
        };
        Ok(committed)
    }
}

/// The two meshes hold the same data in every field.
pub open spec fn mesh_views_equal(a: Mesh, b: Mesh) -> bool {
    a.vertices@ == b.vertices@ && a.positions@ == b.positions@ && a.colors@ == b.colors@
        && a.texture_coords@ == b.texture_coords@ && a.normals@ == b.normals@ && a.indices@
        == b.indices@ && a.dirty == b.dirty
}

impl Mesh {
    /// An element-wise copy of the mesh.
    pub fn duplicate(&self) -> (m: Mesh)
        ensures
            mesh_views_equal(m, *self),
    {
        Mesh {
            vertices: copied_vec(&self.vertices),
            positions: copied_vec(&self.positions),
            colors: copied_vec(&self.colors),
            texture_coords: copied_vec(&self.texture_coords),
            normals: copied_vec(&self.normals),
            indices: copied_vec(&self.indices),
            dirty: self.dirty,
        }
    }
}

/// Committing is idempotent: the committed mesh, taken again as accumulated
/// state, commits to itself, so running `commit` twice yields identical
/// interleaved buffers and index sequences.
pub proof fn lemma_commit_idempotent(m: Mesh, c: Mesh)
    requires
        commit_ok(m),
        spec_committed(m, c),
    ensures
        commit_ok(c),
        spec_committed(c, c),
{
    assert(spec_filled_colors(c) == c.colors@);
    assert(spec_filled_normals(c) == c.normals@);
}

/// A builder that was never fed colours or normals commits a mesh whose
/// colour array is all opaque white and whose normal array is all +Y, one
/// entry per position.
pub proof fn lemma_default_fill(m: Mesh, c: Mesh)
    requires
        m.colors@.len() == 0,
        m.normals@.len() == 0,
        m.texture_coords@.len() == m.positions@.len(),
        mesh_indices_ok(m),
        spec_committed(m, c),
    ensures
        commit_ok(m),
        c.colors@ == Seq::new(m.positions@.len(), |i: int| white()),
        c.normals@ == Seq::new(m.positions@.len(), |i: int| up_normal()),
{
}

/// Every committed mesh is structurally sound: its attribute arrays are
/// parallel and every index references an existing unique vertex.
pub proof fn lemma_committed_mesh_wf(m: Mesh, c: Mesh)
    requires
        commit_ok(m),
        spec_committed(m, c),
    ensures
        mesh_wf(c),
        mesh_vertices_derived(c),
{
    assert(c.colors@ == spec_filled_colors(m));
    assert(c.normals@ == spec_filled_normals(m));
}

} // verus!
