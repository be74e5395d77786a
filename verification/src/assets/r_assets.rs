//! Renderable entities: vertices, the primitives (sub-meshes) they make up,
//! and the entity that groups them, tracks its drawing state and maps
//! textures onto its primitives. Floating-point coordinates are held as
//! their IEEE-754 bit patterns.

use vstd::prelude::*;

use crate::graphics::color::Color;
use crate::graphics::renderer::EnumRendererRenderPrimitiveAs;
use crate::graphics::texture::{spec_depth, TextureArray};
use crate::random::{random_below, random_u32};
use crate::strings::{append_dec, append_spaces, spec_dec, spec_spaces};

verus! {

/// What an entity is drawn as.
#[derive(Debug, Copy, Clone, PartialEq, Eq, Structural, Hash)]
pub enum EnumEntityType {
    Object,
    Text,
}

/// The shape of a primitive: a sprite, a mesh (indexed or not) or a quad.
#[derive(Debug, Copy, Clone, PartialEq, Eq, Structural, Hash)]
pub enum EnumPrimitiveType {
    Sprite,
    Mesh(bool),
    Quad,
}

/// The byte offset of a vertex member.
#[derive(Debug, Copy, Clone, PartialEq, Eq, Structural, Hash)]
pub enum EnumVertexMemberOffset {
    EntityIDOffset,
    TextureInfoOffset,
    PositionOffset,
    NormalOffset,
    ColorOffset,
    TexCoordsOffset,
}

impl EnumVertexMemberOffset {
    /// The offset in bytes: each member follows the previous one (4-byte
    /// identifiers and words, 12-byte positions).
    pub fn offset(&self) -> (r: usize)
        ensures
            r == match *self {
                EnumVertexMemberOffset::EntityIDOffset => 0usize,
                EnumVertexMemberOffset::TextureInfoOffset => 4,
                EnumVertexMemberOffset::PositionOffset => 8,
                EnumVertexMemberOffset::NormalOffset => 20,
                EnumVertexMemberOffset::ColorOffset => 24,
                EnumVertexMemberOffset::TexCoordsOffset => 28,
            },
    {
        match self {
            EnumVertexMemberOffset::EntityIDOffset => 0,
            EnumVertexMemberOffset::TextureInfoOffset => 4,
            EnumVertexMemberOffset::PositionOffset => 8,
            EnumVertexMemberOffset::NormalOffset => 20,
            EnumVertexMemberOffset::ColorOffset => 24,
            EnumVertexMemberOffset::TexCoordsOffset => 28,
        }
    }
}

/// The size in bytes of a vertex.
pub const C_VERTEX_SIZE: usize = 36;

#[derive(Debug, Copy, Clone, PartialEq, Eq, Structural, Hash)]
pub enum EnumMaterial {
    Flat,
    Smooth,
    Noisy,
    Shiny,
    Metallic,
    Matte,
}

impl Default for EnumMaterial {
    fn default() -> (r: Self)
        ensures
            r == EnumMaterial::Smooth,
    {
        EnumMaterial::Smooth
    }
}

#[derive(Debug, Copy, Clone, PartialEq, Eq, Structural, Hash)]
pub enum EnumPrimitive {
    Sprite,
    Mesh(EnumMaterial),
    Quad,
}

impl Default for EnumPrimitive {
    fn default() -> (r: Self)
        ensures
            r == EnumPrimitive::Mesh(EnumMaterial::Smooth),
    {
        EnumPrimitive::Mesh(EnumMaterial::default())
    }
}

/// How the layers of a texture array are mapped onto an entity's primitives.
#[derive(Debug, Clone, PartialEq, Eq, Hash)]
pub enum EnumPrimitiveMapMethod {
    /// Each layer onto the primitive at its depth.
    OnePerSubPrimitive,
    /// Each layer, its depth raised by the offset, onto the primitive at its position.
    OnePerSubPrimitiveWithOffset(u16),
    /// The layers in reverse order, each onto the primitive at its position.
    OnePerSubPrimitiveReversed,
    /// Each layer, at a random depth, onto the primitive at its own depth.
    Randomized,
    /// The given (primitive, layer) pairs.
    Custom(Vec<(usize, u16)>),
}

impl EnumPrimitiveMapMethod {
    pub fn default() -> (r: Self)
        ensures
            r == EnumPrimitiveMapMethod::OnePerSubPrimitive,
    {
        EnumPrimitiveMapMethod::OnePerSubPrimitive
    }
}

/// Which primitives of an entity a request concerns: none, one (`Only`, by
/// index) or all.
#[derive(Debug, Copy, Clone, PartialEq, Eq, Structural, Hash)]
pub enum EnumSubPrimitivePortion {
    Nothing,
    Only(usize),
    Everything,
}

/// Three `f32` values held as their bit patterns.
#[derive(Debug, Copy, Clone, PartialEq, Eq, Structural, Hash)]
pub struct Vec3Bits {
    pub x: u32,
    pub y: u32,
    pub z: u32,
}

/// Two `f32` values held as their bit patterns.
#[derive(Debug, Copy, Clone, PartialEq, Eq, Structural, Hash)]
pub struct Vec2Bits {
    pub x: u32,
    pub y: u32,
}

/// A vertex: the entity it belongs to, the texture it samples (-1: none),
/// position, packed normal, color and texture coordinates.
#[derive(Debug, Copy, Clone, PartialEq, Eq, Structural, Hash)]
pub struct Vertex {
    pub m_entity_id: u32,
    pub m_texture_info: i32,
    pub m_position: Vec3Bits,
    pub m_normal: u32,
    pub m_color: Color,
    pub m_texture_coords: Vec2Bits,
}

/// A vertex of no entity, untextured, at the origin, white.
pub open spec fn spec_default_vertex() -> Vertex {
    Vertex {
        m_entity_id: 0,
        m_texture_info: -1i32,
        m_position: Vec3Bits { x: 0, y: 0, z: 0 },
        m_normal: 0,
        m_color: Color { m_rgba: 0xFFFF_FFFF },
        m_texture_coords: Vec2Bits { x: 0, y: 0 },
    }
}

impl Vertex {
    pub fn default() -> (r: Vertex)
        ensures
            r == spec_default_vertex(),
    {
        Vertex {
            m_entity_id: 0,
            m_texture_info: -1,
            m_position: Vec3Bits { x: 0, y: 0, z: 0 },
            m_normal: 0,
            m_color: Color::default(),
            m_texture_coords: Vec2Bits { x: 0, y: 0 },
        }
    }

    pub fn get_id(&self) -> (r: u32)
        ensures
            r == self.m_entity_id,
    {
        self.m_entity_id
    }

    pub fn register(&mut self, id: u32)
        ensures
            *final(self) == (Vertex { m_entity_id: id, ..*old(self) }),
    {
        self.m_entity_id = id;
    }

    /// Clears everything but the entity it belongs to.
    pub fn clear(&mut self)
        ensures
            *final(self) == (Vertex { m_entity_id: old(self).m_entity_id, ..spec_default_vertex() }),
    {
        self.m_position = Vec3Bits { x: 0, y: 0, z: 0 };
        self.m_texture_info = -1;
        self.m_normal = 0;
        self.m_texture_coords = Vec2Bits { x: 0, y: 0 };
        self.m_color = Color::default();
    }
}

/// `vs` with every vertex registered to entity `id`.
pub open spec fn spec_registered(vs: Seq<Vertex>, id: u32) -> Seq<Vertex> {
    vs.map_values(|v: Vertex| Vertex { m_entity_id: id, ..v })
}

/// Registers every vertex to entity `candidate` when no entity holds that
/// identifier yet (`taken`), and returns whether it did; otherwise nothing
/// changes.
pub fn register_vertices_if_free(vertices: &mut Vec<Vertex>, taken: &Vec<u32>, candidate: u32) -> (r: bool)
    ensures
        r == !taken@.contains(candidate),
        r ==> final(vertices)@ == spec_registered(old(vertices)@, candidate),
        !r ==> final(vertices)@ == old(vertices)@,
{
    let mut t: usize = 0;
    while t < taken.len()
        invariant
            0 <= t <= taken.len(),
            forall|j: int| 0 <= j < t ==> taken@[j] != candidate,
        decreases taken.len() - t,
    {
        if taken[t] == candidate {
            assert(taken@.contains(candidate)) by {
                assert(taken@[t as int] == candidate);
            }
            return false;
        }
        t = t + 1;
    }
    let n = vertices.len();
    let mut k: usize = 0;
    while k < n
        invariant
            0 <= k <= n == vertices@.len() == old(vertices)@.len(),
            forall|j: int| 0 <= j < k ==> #[trigger] vertices@[j] == (Vertex { m_entity_id: candidate, ..old(vertices)@[j] }),
            forall|j: int| k <= j < n ==> #[trigger] vertices@[j] == old(vertices)@[j],
        decreases n - k,
    {
        let mut v = vertices[k];
        v.register(candidate);
        vertices.set(k, v);
        k = k + 1;
    }
    assert(vertices@ =~= spec_registered(old(vertices)@, candidate));
    true
}

/// Draws an entity identifier at random and registers every vertex to it
/// when no entity holds it yet (see `register_vertices_if_free`); `None`
/// where it was taken, and a new identifier is to be drawn. Where no entity
/// holds an identifier, the first draw always succeeds.
pub fn try_register_vertices(vertices: &mut Vec<Vertex>, taken: &Vec<u32>) -> (r: Option<u32>)
    ensures
        r matches Some(id) ==> !taken@.contains(id) && final(vertices)@ == spec_registered(old(vertices)@, id),
        r is None ==> final(vertices)@ == old(vertices)@,
        r is None ==> taken@.len() > 0,
{
    let candidate = random_u32();
    if register_vertices_if_free(vertices, taken, candidate) {
        Some(candidate)
    } else {
        None
    }
}

/// A normal as the packing takes it: the magnitude of each component in
/// hundredths (one byte each) and whether it is negative.
#[derive(Debug, Copy, Clone, PartialEq, Eq, Structural, Hash)]
pub struct NormalBits {
    pub m_x: u32,
    pub m_y: u32,
    pub m_z: u32,
    pub m_x_negative: bool,
    pub m_y_negative: bool,
    pub m_z_negative: bool,
}

/// The packed normal: x in the top byte, then y, then z, and the signs in
/// the low bits (1 for x, 2 for y, 8 for z).
pub open spec fn spec_pack_normal(n: NormalBits) -> u32 {
    (n.m_x * 0x100_0000 + n.m_y * 0x1_0000 + (if n.m_x_negative {
        1int
    } else {
        0
    }) + (if n.m_y_negative {
        2int
    } else {
        0
    }) + (if n.m_z_negative {
        8int
    } else {
        0
    }) + n.m_z * 0x100) as u32
}

proof fn lemma_small_shifts(v: u32)
    by (bit_vector)
    requires
        v <= 255,
    ensures
        v << 24 == v * 0x100_0000,
        v << 16 == v * 0x1_0000,
        v << 8 == v * 0x100,
{
}

/// Packs a normal into one word.
pub fn pack_normal(n: NormalBits) -> (r: u32)
    requires
        n.m_x <= 255,
        n.m_y <= 255,
        n.m_z <= 255,
    ensures
        r == spec_pack_normal(n),
{
    let x_sign: u32 = if n.m_x_negative {
        1
    } else {
        0
    };
    let y_sign: u32 = if n.m_y_negative {
        2
    } else {
        0
    };
    let z_sign: u32 = if n.m_z_negative {
        8
    } else {
        0
    };
    let x = n.m_x << 24;
    let y = n.m_y << 16;
    let z = n.m_z << 8;
    proof {
        lemma_small_shifts(n.m_x);
        lemma_small_shifts(n.m_y);
        lemma_small_shifts(n.m_z);
    }
    x + y + x_sign + y_sign + z_sign + z
}

/// Whether a primitive is a sprite or a mesh.
#[derive(Debug, Copy, Clone, PartialEq, Eq, Structural, Hash)]
pub enum EnumPrimitiveKind {
    Sprite,
    Mesh,
}

/// A primitive (sub-mesh) of an entity.
#[derive(Debug, Clone)]
pub struct Primitive {
    pub m_kind: EnumPrimitiveKind,
    pub m_name: String,
    pub m_vertices: Vec<Vertex>,
    pub m_indices: Vec<u32>,
}

impl Primitive {
    pub fn get_name(&self) -> (r: &str)
        ensures
            r@ == self.m_name@,
    {
        self.m_name.as_str()
    }

    pub fn get_vertices_ref(&self) -> (r: &Vec<Vertex>)
        ensures
            r@ == self.m_vertices@,
    {
        &self.m_vertices
    }

    pub fn get_indices(&self) -> (r: &Vec<u32>)
        ensures
            r@ == self.m_indices@,
    {
        &self.m_indices
    }

    /// The entity of its first vertex; 0 where it has none.
    pub fn get_entity_id(&self) -> (r: u32)
        ensures
            r == (if self.m_vertices@.len() > 0 {
                self.m_vertices@[0].m_entity_id
            } else {
                0
            }),
    {
        if self.m_vertices.len() > 0 {
            self.m_vertices[0].m_entity_id
        } else {
            0
        }
    }

    pub fn is_empty(&self) -> (r: bool)
        ensures
            r == (self.m_vertices@.len() == 0),
    {
        self.m_vertices.len() == 0
    }
}

/// A mesh as read from a model file: its name, vertex count, and per vertex
/// (as far as the file gives them) position, normal and texture coordinates,
/// and its triangles.
#[derive(Debug, Clone)]
pub struct MeshData {
    pub m_name: String,
    pub m_num_vertices: usize,
    pub m_positions: Vec<Vec3Bits>,
    pub m_normals: Vec<NormalBits>,
    pub m_texture_coords: Vec<Vec2Bits>,
    pub m_faces: Vec<[u32; 3]>,
}

/// Whether mesh `m` is well formed: no more positions, normals or coordinates
/// than vertices, and normals within range.
pub open spec fn spec_mesh_wf(m: MeshData) -> bool {
    &&& m.m_positions@.len() <= m.m_num_vertices
    &&& m.m_normals@.len() <= m.m_num_vertices
    &&& m.m_texture_coords@.len() <= m.m_num_vertices
    &&& forall|i: int|
        0 <= i < m.m_normals@.len() ==> (#[trigger] m.m_normals@[i]).m_x <= 255 && m.m_normals@[i].m_y
            <= 255 && m.m_normals@[i].m_z <= 255
}

/// Vertex `i` of mesh `m` of entity `id`: a default vertex given the
/// position (and then the entity), normal and coordinates the file has for it.
pub open spec fn spec_mesh_vertex(m: MeshData, id: u32, i: int) -> Vertex {
    let d = spec_default_vertex();
    let with_position = if i < m.m_positions@.len() {
        Vertex { m_position: m.m_positions@[i], m_entity_id: id, ..d }
    } else {
        d
    };
    let with_normal = if i < m.m_normals@.len() {
        Vertex { m_normal: spec_pack_normal(m.m_normals@[i]), ..with_position }
    } else {
        with_position
    };
    if i < m.m_texture_coords@.len() {
        Vertex { m_texture_coords: m.m_texture_coords@[i], ..with_normal }
    } else {
        with_normal
    }
}

/// The indices of the first `n` triangles of `faces`, shifted by `base`.
pub open spec fn spec_flat_indices(faces: Seq<[u32; 3]>, n: int, base: int) -> Seq<u32>
    decreases n,
{
    if n <= 0 {
        Seq::empty()
    } else {
        let f = faces[n - 1];
        spec_flat_indices(faces, n - 1, base) + seq![
            (f[0] + base) as u32,
            (f[1] + base) as u32,
            (f[2] + base) as u32,
        ]
    }
}

/// The vertices of the first `k` meshes of `meshes`.
pub open spec fn spec_vertices_before(meshes: Seq<MeshData>, k: int) -> int
    decreases k,
{
    if k <= 0 {
        0
    } else {
        spec_vertices_before(meshes, k - 1) + meshes[k - 1].m_num_vertices
    }
}

proof fn lemma_vertices_before_grow(meshes: Seq<MeshData>, j: int, k: int)
    requires
        0 <= j <= k <= meshes.len(),
    ensures
        0 <= spec_vertices_before(meshes, j) <= spec_vertices_before(meshes, k),
    decreases k - j,
{
    if j < k {
        lemma_vertices_before_grow(meshes, j, k - 1);
    } else {
        lemma_vertices_before_nonneg(meshes, k);
    }
}

proof fn lemma_vertices_before_nonneg(meshes: Seq<MeshData>, k: int)
    ensures
        spec_vertices_before(meshes, k) >= 0,
    decreases k,
{
    if k > 0 {
        lemma_vertices_before_nonneg(meshes, k - 1);
    }
}

/// Whether every corner of the triangles `faces` names one of `n` vertices.
pub open spec fn spec_faces_within(faces: Seq<[u32; 3]>, n: int) -> bool {
    forall|f: int|
        0 <= f < faces.len() ==> (#[trigger] faces[f])[0] < n && faces[f][1] < n && faces[f][2] < n
}

proof fn lemma_flat_indices_within(faces: Seq<[u32; 3]>, m: int, base: int, n: int)
    requires
        0 <= m <= faces.len(),
        0 <= base,
        base + n <= u32::MAX + 1,
        spec_faces_within(faces, n),
    ensures
        spec_flat_indices(faces, m, base).len() == 3 * m,
        forall|i: int|
            0 <= i < 3 * m ==> base <= #[trigger] spec_flat_indices(faces, m, base)[i] < base + n,
    decreases m,
{
    if m > 0 {
        lemma_flat_indices_within(faces, m - 1, base, n);
        let f = faces[m - 1];
        assert(f[0] < n && f[1] < n && f[2] < n) by {
            assert(spec_faces_within(faces, n));
            assert(faces[m - 1][0] < n);
            assert(faces[m - 1][1] < n);
            assert(faces[m - 1][2] < n);
        }
    }
}

/// Indexed meshes share one vertex buffer: where the triangles of each mesh
/// name its own vertices, the indices of mesh `k`, shifted by the vertices
/// of the meshes before it, name exactly the vertices of mesh `k` in the
/// shared buffer, from `spec_vertices_before(meshes, k)` up to but not
/// including `spec_vertices_before(meshes, k + 1)`.
pub proof fn lemma_shared_indices_within(meshes: Seq<MeshData>, k: int)
    requires
        0 <= k < meshes.len(),
        spec_vertices_before(meshes, meshes.len() as int) <= u32::MAX,
        spec_faces_within(meshes[k].m_faces@, meshes[k].m_num_vertices as int),
    ensures
        ({
            let ix = spec_flat_indices(
                meshes[k].m_faces@,
                meshes[k].m_faces@.len() as int,
                spec_vertices_before(meshes, k),
            );
            forall|i: int|
                0 <= i < ix.len() ==> spec_vertices_before(meshes, k) <= #[trigger] ix[i]
                    < spec_vertices_before(meshes, k + 1)
        }),
{
    lemma_vertices_before_grow(meshes, k, k + 1);
    lemma_vertices_before_grow(meshes, k + 1, meshes.len() as int);
    lemma_flat_indices_within(
        meshes[k].m_faces@,
        meshes[k].m_faces@.len() as int,
        spec_vertices_before(meshes, k),
        meshes[k].m_num_vertices as int,
    );
}

/// Whether the corners of triangle `f`, shifted by `base`, fit in 32 bits.
pub open spec fn spec_face_fits(f: [u32; 3], base: int) -> bool {
    f[0] + base <= u32::MAX && f[1] + base <= u32::MAX && f[2] + base <= u32::MAX
}

/// Whether the indices of `meshes`, shifted by the vertices before them, fit
/// in 32 bits.
pub open spec fn spec_indices_fit(meshes: Seq<MeshData>) -> bool {
    &&& spec_vertices_before(meshes, meshes.len() as int) <= u32::MAX
    &&& forall|k: int, f: int|
        0 <= k < meshes.len() && 0 <= f < meshes[k].m_faces@.len() ==> spec_face_fits(
            #[trigger] meshes[k].m_faces@[f],
            spec_vertices_before(meshes, k),
        )
}

/// An entity to render: its primitives, kind and drawing state.
pub struct REntity {
    pub m_renderer_id: u64,
    pub m_name: &'static str,
    pub m_sub_meshes: Vec<Primitive>,
    pub m_type: EnumPrimitive,
    pub m_primitive_mode: EnumRendererRenderPrimitiveAs,
    pub m_last_primitive_mode: EnumRendererRenderPrimitiveAs,
    /// Translation, rotation and scale, each three `f32` bit patterns.
    pub m_transform: [Vec3Bits; 3],
    pub m_sent: bool,
    pub m_changed: bool,
}

/// The bit pattern of `1.0f32`.
pub const C_F32_ONE: u32 = 0x3F80_0000;

fn mesh_vertices(m: &MeshData, id: u32) -> (r: Vec<Vertex>)
    requires
        spec_mesh_wf(*m),
    ensures
        r@ == Seq::new(m.m_num_vertices as nat, |i: int| spec_mesh_vertex(*m, id, i)),
{
    let mut vertices: Vec<Vertex> = Vec::new();
    let mut i: usize = 0;
    while i < m.m_num_vertices
        invariant
            0 <= i <= m.m_num_vertices,
            spec_mesh_wf(*m),
            vertices@ == Seq::new(i as nat, |j: int| spec_mesh_vertex(*m, id, j)),
        decreases m.m_num_vertices - i,
    {
        let mut v = Vertex::default();
        if i < m.m_positions.len() {
            v.m_position = m.m_positions[i];
            v.m_entity_id = id;
        }
        if i < m.m_normals.len() {
            v.m_normal = pack_normal(m.m_normals[i]);
        }
        if i < m.m_texture_coords.len() {
            v.m_texture_coords = m.m_texture_coords[i];
        }
        vertices.push(v);
        i = i + 1;
        assert(vertices@ =~= Seq::new(i as nat, |j: int| spec_mesh_vertex(*m, id, j)));
    }
    vertices
}

fn mesh_indices(faces: &Vec<[u32; 3]>, base: u32) -> (r: Vec<u32>)
    requires
        forall|f: int| 0 <= f < faces@.len() ==> spec_face_fits(#[trigger] faces@[f], base as int),
    ensures
        r@ == spec_flat_indices(faces@, faces@.len() as int, base as int),
{
    let mut indices: Vec<u32> = Vec::new();
    let mut f: usize = 0;
    while f < faces.len()
        invariant
            0 <= f <= faces.len(),
            forall|g: int| 0 <= g < faces@.len() ==> spec_face_fits(#[trigger] faces@[g], base as int),
            indices@ == spec_flat_indices(faces@, f as int, base as int),
        decreases faces.len() - f,
    {
        let face = faces[f];
        assert(spec_face_fits(faces@[f as int], base as int));
        indices.push(face[0] + base);
        indices.push(face[1] + base);
        indices.push(face[2] + base);
        f = f + 1;
        assert(indices@ =~= spec_flat_indices(faces@, f as int, base as int));
    }
    indices
}

impl REntity {
    /// The entity named `name` made of `meshes`, each a primitive of
    /// `data_type` belonging to entity `first_entity_id + k`. Indexed meshes
    /// get their triangles' indices, shifted by the vertices of the meshes
    /// before them so that all index one shared vertex buffer; plain ones get
    /// none. Returns the entity and the next entity identifier.
    pub fn new(
        meshes: &Vec<MeshData>,
        is_indexed: bool,
        data_type: EnumPrimitive,
        name: &'static str,
        first_entity_id: u32,
    ) -> (r: (REntity, u32))
        requires
            !(data_type is Quad),
            first_entity_id + meshes@.len() <= u32::MAX,
            forall|k: int| 0 <= k < meshes@.len() ==> spec_mesh_wf(#[trigger] meshes@[k]),
            is_indexed ==> spec_indices_fit(meshes@),
        ensures
            r.1 == first_entity_id + meshes@.len(),
            r.0.m_renderer_id == u64::MAX,
            r.0.m_name == name,
            r.0.m_type == data_type,
            r.0.m_primitive_mode == EnumRendererRenderPrimitiveAs::Filled,
            r.0.m_last_primitive_mode == EnumRendererRenderPrimitiveAs::Filled,
            r.0.m_transform[0] == (Vec3Bits { x: 0, y: 0, z: 0 }),
            r.0.m_transform[1] == (Vec3Bits { x: 0, y: 0, z: 0 }),
            r.0.m_transform[2] == (Vec3Bits { x: C_F32_ONE, y: C_F32_ONE, z: C_F32_ONE }),
            !r.0.m_sent,
            !r.0.m_changed,
            r.0.m_sub_meshes@.len() == meshes@.len(),
            forall|k: int|
                0 <= k < meshes@.len() ==> {
                    let p = #[trigger] r.0.m_sub_meshes@[k];
                    let m = meshes@[k];
                    &&& p.m_kind == (if data_type is Sprite {
                        EnumPrimitiveKind::Sprite
                    } else {
                        EnumPrimitiveKind::Mesh
                    })
                    &&& p.m_name@ == m.m_name@
                    &&& p.m_vertices@ == Seq::new(
                        m.m_num_vertices as nat,
                        |i: int| spec_mesh_vertex(m, (first_entity_id + k) as u32, i),
                    )
                    &&& p.m_indices@ == (if is_indexed {
                        spec_flat_indices(
                            m.m_faces@,
                            m.m_faces@.len() as int,
                            spec_vertices_before(meshes@, k),
                        )
                    } else {
                        Seq::empty()
                    })
                },
    {
        let kind = match data_type {
            EnumPrimitive::Sprite => EnumPrimitiveKind::Sprite,
            _ => EnumPrimitiveKind::Mesh,
        };
        let mut data: Vec<Primitive> = Vec::new();
        let mut base_index: usize = 0;
        let mut id: u32 = first_entity_id;
        let mut k: usize = 0;
        while k < meshes.len()
            invariant
                0 <= k <= meshes.len(),
                id == first_entity_id + k,
                first_entity_id + meshes@.len() <= u32::MAX,
                forall|j: int| 0 <= j < meshes@.len() ==> spec_mesh_wf(#[trigger] meshes@[j]),
                is_indexed ==> spec_indices_fit(meshes@),
                is_indexed ==> base_index == spec_vertices_before(meshes@, k as int),
                kind == (if data_type is Sprite {
                    EnumPrimitiveKind::Sprite
                } else {
                    EnumPrimitiveKind::Mesh
                }),
                data@.len() == k,
                forall|j: int|
                    0 <= j < k ==> {
                        let p = #[trigger] data@[j];
                        let m = meshes@[j];
                        &&& p.m_kind == kind
                        &&& p.m_name@ == m.m_name@
                        &&& p.m_vertices@ == Seq::new(
                            m.m_num_vertices as nat,
                            |i: int| spec_mesh_vertex(m, (first_entity_id + j) as u32, i),
                        )
                        &&& p.m_indices@ == (if is_indexed {
                            spec_flat_indices(
                                m.m_faces@,
                                m.m_faces@.len() as int,
                                spec_vertices_before(meshes@, j),
                            )
                        } else {
                            Seq::empty()
                        })
                    },
            decreases meshes.len() - k,
        {
            let m = &meshes[k];
            assert(spec_mesh_wf(meshes@[k as int]));
            let vertices = mesh_vertices(m, id);
            let mut indices: Vec<u32> = Vec::new();
            if is_indexed {
                proof {
                    lemma_vertices_before_grow(meshes@, k + 1, meshes@.len() as int);
                    assert(forall|f: int|
                        0 <= f < m.m_faces@.len() ==> spec_face_fits(
                            #[trigger] m.m_faces@[f],
                            spec_vertices_before(meshes@, k as int),
                        ));
                }
                indices = mesh_indices(&m.m_faces, base_index as u32);
                base_index = base_index + m.m_num_vertices;
            }
            let name_copy = m.m_name.as_str().to_owned();
            data.push(Primitive { m_kind: kind, m_name: name_copy, m_vertices: vertices, m_indices: indices });
            id = id + 1;
            k = k + 1;
        }
        let entity = REntity {
            m_renderer_id: u64::MAX,
            m_name: name,
            m_sub_meshes: data,
            m_type: data_type,
            m_primitive_mode: EnumRendererRenderPrimitiveAs::Filled,
            m_last_primitive_mode: EnumRendererRenderPrimitiveAs::Filled,
            m_transform: [
                Vec3Bits { x: 0, y: 0, z: 0 },
                Vec3Bits { x: 0, y: 0, z: 0 },
                Vec3Bits { x: C_F32_ONE, y: C_F32_ONE, z: C_F32_ONE },
            ],
            m_sent: false,
            m_changed: false,
        };
        (entity, id)
    }

    /// The bytes per vertex: sprites and quads hold an identifier, two
    /// coordinates, a word and two texture coordinates; meshes full vertices.
    pub fn get_size(&self) -> (r: usize)
        ensures
            r == (if self.m_type is Mesh {
                C_VERTEX_SIZE
            } else {
                24usize
            }),
    {
        match self.m_type {
            EnumPrimitive::Mesh(_) => C_VERTEX_SIZE,
            _ => 24,
        }
    }

    pub fn get_name(&self) -> (r: &'static str)
        ensures
            r == self.m_name,
    {
        self.m_name
    }

    pub fn get_primitive_mode(&self) -> (r: EnumRendererRenderPrimitiveAs)
        ensures
            r == self.m_primitive_mode,
    {
        self.m_primitive_mode
    }

    pub fn get_primitive_count(&self) -> (r: usize)
        ensures
            r == self.m_sub_meshes@.len(),
    {
        self.m_sub_meshes.len()
    }

    /// The vertices of all primitives.
    pub fn get_total_vertex_count(&self) -> (r: usize)
        requires
            spec_total_vertices(self.m_sub_meshes@, self.m_sub_meshes@.len() as int) <= usize::MAX,
        ensures
            r == spec_total_vertices(self.m_sub_meshes@, self.m_sub_meshes@.len() as int),
    {
        let mut count: usize = 0;
        let mut k: usize = 0;
        while k < self.m_sub_meshes.len()
            invariant
                0 <= k <= self.m_sub_meshes.len(),
                count == spec_total_vertices(self.m_sub_meshes@, k as int),
                spec_total_vertices(self.m_sub_meshes@, self.m_sub_meshes@.len() as int) <= usize::MAX,
            decreases self.m_sub_meshes.len() - k,
        {
            proof {
                lemma_totals_grow(self.m_sub_meshes@, k + 1, self.m_sub_meshes@.len() as int);
            }
            count = count + self.m_sub_meshes[k].m_vertices.len();
            k = k + 1;
        }
        count
    }

    /// The indices of all primitives.
    pub fn get_total_index_count(&self) -> (r: usize)
        requires
            spec_total_indices(self.m_sub_meshes@, self.m_sub_meshes@.len() as int) <= usize::MAX,
        ensures
            r == spec_total_indices(self.m_sub_meshes@, self.m_sub_meshes@.len() as int),
    {
        let mut count: usize = 0;
        let mut k: usize = 0;
        while k < self.m_sub_meshes.len()
            invariant
                0 <= k <= self.m_sub_meshes.len(),
                count == spec_total_indices(self.m_sub_meshes@, k as int),
                spec_total_indices(self.m_sub_meshes@, self.m_sub_meshes@.len() as int) <= usize::MAX,
            decreases self.m_sub_meshes.len() - k,
        {
            proof {
                lemma_totals_grow(self.m_sub_meshes@, k + 1, self.m_sub_meshes@.len() as int);
            }
            count = count + self.m_sub_meshes[k].m_indices.len();
            k = k + 1;
        }
        count
    }

    /// Switches how the entity is drawn; a change marks it changed.
    pub fn toggle_primitive_mode(&mut self, view_as: EnumRendererRenderPrimitiveAs)
        ensures
            *final(self) == (REntity {
                m_primitive_mode: view_as,
                m_changed: old(self).m_changed || old(self).m_primitive_mode != view_as,
                ..*old(self)
            }),
    {
        if self.m_primitive_mode != view_as {
            self.m_primitive_mode = view_as;
            self.m_changed = true;
        }
    }

    pub fn is_empty(&self) -> (r: bool)
        ensures
            r == (self.m_sub_meshes@.len() == 0),
    {
        self.m_sub_meshes.len() == 0
    }

    pub fn is_sent(&self) -> (r: bool)
        ensures
            r == self.m_sent,
    {
        self.m_sent
    }

    pub fn has_changed(&self) -> (r: bool)
        ensures
            r == self.m_changed,
    {
        self.m_changed
    }

    pub fn get_uuid(&self) -> (r: u64)
        ensures
            r == self.m_renderer_id,
    {
        self.m_renderer_id
    }

    /// Records that the entity was queued for drawing: sent, and unchanged since.
    pub fn mark_sent(&mut self)
        ensures
            *final(self) == (REntity { m_sent: true, m_changed: false, ..*old(self) }),
    {
        self.m_sent = true;
        self.m_changed = false;
    }

    /// Freeing a sent entity takes it out of the renderer: returns the
    /// identifier to take out (then it is no longer sent nor changed);
    /// freeing one not sent does nothing.
    pub fn free(&mut self) -> (r: Option<u64>)
        ensures
            old(self).m_sent ==> r == Some(old(self).m_renderer_id) && *final(self) == (REntity {
                m_sent: false,
                m_changed: false,
                ..*old(self)
            }),
            !old(self).m_sent ==> r is None && *final(self) == *old(self),
    {
        if self.m_sent {
            self.m_sent = false;
            self.m_changed = false;
            return Some(self.m_renderer_id);
        }
        None
    }

    /// The visibility request for `portion` of a sent entity: the entity and,
    /// for one primitive, its index; nothing for an entity not sent, for
    /// `Nothing`, or for an index past its primitives.
    pub fn visibility_request(&self, portion: EnumSubPrimitivePortion) -> (r: Option<(u64, Option<usize>)>)
        ensures
            r == (if !self.m_sent {
                None
            } else {
                match portion {
                    EnumSubPrimitivePortion::Nothing => None,
                    EnumSubPrimitivePortion::Only(i) => if i < self.m_sub_meshes@.len() {
                        Some((self.m_renderer_id, Some(i)))
                    } else {
                        None
                    },
                    EnumSubPrimitivePortion::Everything => Some((self.m_renderer_id, None)),
                }
            }),
    {
        if !self.m_sent {
            return None;
        }
        match portion {
            EnumSubPrimitivePortion::Nothing => None,
            EnumSubPrimitivePortion::Only(i) => {
                if i < self.m_sub_meshes.len() {
                    Some((self.m_renderer_id, Some(i)))
                } else {
                    None
                }
            },
            EnumSubPrimitivePortion::Everything => Some((self.m_renderer_id, None)),
        }
    }
}

/// The vertices of the first `n` primitives of `p`.
pub open spec fn spec_total_vertices(p: Seq<Primitive>, n: int) -> int
    decreases n,
{
    if n <= 0 {
        0
    } else {
        spec_total_vertices(p, n - 1) + p[n - 1].m_vertices@.len()
    }
}

/// The indices of the first `n` primitives of `p`.
pub open spec fn spec_total_indices(p: Seq<Primitive>, n: int) -> int
    decreases n,
{
    if n <= 0 {
        0
    } else {
        spec_total_indices(p, n - 1) + p[n - 1].m_indices@.len()
    }
}

proof fn lemma_totals_grow(p: Seq<Primitive>, j: int, k: int)
    requires
        0 <= j <= k <= p.len(),
    ensures
        0 <= spec_total_vertices(p, j) <= spec_total_vertices(p, k),
        0 <= spec_total_indices(p, j) <= spec_total_indices(p, k),
    decreases k - j,
{
    if j < k {
        lemma_totals_grow(p, j, k - 1);
    } else {
        lemma_totals_nonneg(p, k);
    }
}

proof fn lemma_totals_nonneg(p: Seq<Primitive>, k: int)
    ensures
        spec_total_vertices(p, k) >= 0,
        spec_total_indices(p, k) >= 0,
    decreases k,
{
    if k > 0 {
        lemma_totals_nonneg(p, k - 1);
    }
}

/// The start depth carried after the first `n` vertices of `vs`: a textured
/// vertex gives its own (its texture word masked by `mask`), an untextured
/// one keeps the one before; `start` before any.
pub open spec fn spec_start_after(vs: Seq<Vertex>, n: int, start: int, mask: i32) -> int
    decreases n,
{
    if n <= 0 {
        start
    } else if vs[n - 1].m_texture_info != -1 {
        (vs[n - 1].m_texture_info & mask) as int
    } else {
        spec_start_after(vs, n - 1, start, mask)
    }
}

/// Vertices `vs` given texture words `word` plus the start depth carried to each.
pub open spec fn spec_remap(vs: Seq<Vertex>, word: int, start: int, mask: i32) -> Seq<Vertex> {
    Seq::new(
        vs.len(),
        |i: int|
            Vertex { m_texture_info: (word + spec_start_after(vs, i + 1, start, mask)) as i32, ..vs[i] },
    )
}

/// One mapping of a texture onto a primitive: the primitive's index, the
/// texture word without its start depth, the first start depth and the mask
/// that reads start depths back.
pub struct TextureStep {
    pub m_primitive: int,
    pub m_word: int,
    pub m_start: int,
    pub m_mask: i32,
}

/// The vertices of the primitives `vv` after step `s` (a step past the
/// primitives changes nothing).
pub open spec fn spec_apply_step(vv: Seq<Seq<Vertex>>, s: TextureStep) -> Seq<Seq<Vertex>> {
    if 0 <= s.m_primitive < vv.len() {
        vv.update(s.m_primitive, spec_remap(vv[s.m_primitive], s.m_word, s.m_start, s.m_mask))
    } else {
        vv
    }
}

/// The vertices of the primitives `vv` after the first `n` steps of `steps`.
pub open spec fn spec_apply_steps(vv: Seq<Seq<Vertex>>, steps: Seq<TextureStep>, n: int) -> Seq<Seq<Vertex>>
    decreases n,
{
    if n <= 0 {
        vv
    } else {
        spec_apply_step(spec_apply_steps(vv, steps, n - 1), steps[n - 1])
    }
}

/// The texture word of a texture `width` pixels wide (shifted by `shift`)
/// ending at `end` (shifted by 8).
pub open spec fn spec_texture_word(width: usize, shift: u32, end: i32) -> int {
    (((width as i32) << shift) as int) + ((end << 8u32) as int)
}

/// Whether a step's words stay within 32 bits whatever start depth a vertex
/// carries.
pub open spec fn spec_step_fits(s: TextureStep) -> bool {
    &&& 0 <= s.m_start <= u16::MAX
    &&& 0 <= s.m_mask
    &&& i32::MIN <= s.m_word
    &&& s.m_word + s.m_start <= i32::MAX
    &&& s.m_word + s.m_mask <= i32::MAX
}

/// The step mapping layer `t` at depth `d` onto primitive `p` (one layer per primitive).
pub open spec fn spec_layer_step(width: usize, d: int, p: int) -> TextureStep {
    TextureStep {
        m_primitive: p,
        m_word: spec_texture_word(width, 16, (d + 1) as i32),
        m_start: d,
        m_mask: 0xFF,
    }
}

proof fn lemma_start_after_untextured(vs: Seq<Vertex>, n: int, start: int, mask: i32)
    requires
        n <= vs.len(),
        forall|j: int| 0 <= j < n ==> (#[trigger] vs[j]).m_texture_info == -1,
    ensures
        spec_start_after(vs, n, start, mask) == start,
    decreases n,
{
    if n > 0 {
        lemma_start_after_untextured(vs, n - 1, start, mask);
    }
}

proof fn lemma_steps_one_per_primitive(vv: Seq<Seq<Vertex>>, steps: Seq<TextureStep>, n: int, k: int)
    requires
        0 <= n <= steps.len(),
        forall|j: int| 0 <= j < steps.len() ==> (#[trigger] steps[j]).m_primitive == j,
        0 <= k < vv.len(),
    ensures
        spec_apply_steps(vv, steps, n).len() == vv.len(),
        spec_apply_steps(vv, steps, n)[k] == (if k < n {
            spec_remap(vv[k], steps[k].m_word, steps[k].m_start, steps[k].m_mask)
        } else {
            vv[k]
        }),
    decreases n,
{
    if n > 0 {
        lemma_steps_one_per_primitive(vv, steps, n - 1, k);
        assert(steps[n - 1].m_primitive == n - 1);
    }
}

/// Mapping with `OnePerSubPrimitiveWithOffset(o)` puts layer `k` onto
/// primitive `k` with its depth raised by `o`: an untextured vertex of
/// primitive `k` gets the word of a texture as wide as the layer, ending at
/// depth `d + o + 1`, plus its start depth `d + o` (`d` the layer's depth).
/// So a positive offset gives other words than no offset.
pub proof fn lemma_offset_mapping_raises_depth(
    vv: Seq<Seq<Vertex>>,
    ts: Seq<crate::graphics::texture::TextureInfo>,
    o: u16,
    k: int,
    i: int,
)
    requires
        0 <= k < ts.len(),
        k < vv.len(),
        0 <= i < vv[k].len(),
        forall|j: int| 0 <= j < vv[k].len() ==> (#[trigger] vv[k][j]).m_texture_info == -1,
    ensures
        ({
            let d = spec_depth(ts[k].m_type) as int;
            spec_apply_steps(
                vv,
                spec_method_steps(ts, EnumPrimitiveMapMethod::OnePerSubPrimitiveWithOffset(o)),
                ts.len() as int,
            )[k][i].m_texture_info == (spec_texture_word(ts[k].m_width, 16, (d + o + 1) as i32) + d + o) as i32
        }),
{
    let steps = spec_method_steps(ts, EnumPrimitiveMapMethod::OnePerSubPrimitiveWithOffset(o));
    lemma_steps_one_per_primitive(vv, steps, ts.len() as int, k);
    lemma_start_after_untextured(vv[k], i + 1, steps[k].m_start, steps[k].m_mask);
}

/// The steps of each method but the random and custom ones, for layers `ts`.
pub open spec fn spec_method_steps(ts: Seq<crate::graphics::texture::TextureInfo>, method: EnumPrimitiveMapMethod) -> Seq<TextureStep> {
    match method {
        EnumPrimitiveMapMethod::OnePerSubPrimitive => Seq::new(
            ts.len(),
            |k: int| spec_layer_step(ts[k].m_width, spec_depth(ts[k].m_type) as int, spec_depth(ts[k].m_type) as int),
        ),
        EnumPrimitiveMapMethod::OnePerSubPrimitiveWithOffset(o) => Seq::new(
            ts.len(),
            |k: int| spec_layer_step(ts[k].m_width, spec_depth(ts[k].m_type) + o, k),
        ),
        EnumPrimitiveMapMethod::OnePerSubPrimitiveReversed => Seq::new(
            ts.len(),
            |k: int|
                spec_layer_step(
                    ts[ts.len() - 1 - k].m_width,
                    spec_depth(ts[ts.len() - 1 - k].m_type) as int,
                    k,
                ),
        ),
        _ => Seq::empty(),
    }
}

/// The steps of the random method with the depths `ds` drawn.
pub open spec fn spec_random_steps(ts: Seq<crate::graphics::texture::TextureInfo>, ds: Seq<u16>) -> Seq<TextureStep> {
    Seq::new(
        ts.len(),
        |k: int| spec_layer_step(ts[k].m_width, ds[k] as int, spec_depth(ts[k].m_type) as int),
    )
}

/// The step of a custom pair (primitive `p`, layer `t` of `ts`).
pub open spec fn spec_custom_step(ts: Seq<crate::graphics::texture::TextureInfo>, p: usize, t: u16) -> TextureStep {
    let d = spec_depth(ts[t as int].m_type) as int;
    TextureStep {
        m_primitive: p as int,
        m_word: spec_texture_word(ts[t as int].m_width, 20, d as i32),
        m_start: d,
        m_mask: 0x3FF,
    }
}

/// The index of the first custom pair whose primitive exists; the number of
/// pairs where none does.
pub open spec fn spec_first_custom(map: Seq<(usize, u16)>, prims: int, i: int) -> int
    decreases map.len() - i,
{
    if i < 0 || i >= map.len() {
        map.len() as int
    } else if map[i].0 < prims {
        i
    } else {
        spec_first_custom(map, prims, i + 1)
    }
}

/// The vertices of an entity's primitives.
pub open spec fn spec_sub_vertices(p: Seq<Primitive>) -> Seq<Seq<Vertex>> {
    p.map_values(|q: Primitive| q.m_vertices@)
}

/// Whether the primitives `a` and `b` differ at most in their vertices.
pub open spec fn spec_same_but_vertices(a: Seq<Primitive>, b: Seq<Primitive>) -> bool {
    &&& a.len() == b.len()
    &&& forall|k: int|
        0 <= k < a.len() ==> (#[trigger] a[k]).m_kind == b[k].m_kind && a[k].m_name@ == b[k].m_name@
            && a[k].m_indices@ == b[k].m_indices@
}

proof fn lemma_mask_range(x: i32)
    by (bit_vector)
    ensures
        0 <= (x & 0xFFi32) <= 0xFF,
        0 <= (x & 0x3FFi32) <= 0x3FF,
{
}

proof fn lemma_start_range(vs: Seq<Vertex>, n: int, start: int, mask: i32)
    requires
        mask == 0xFF || mask == 0x3FF,
        0 <= start,
    ensures
        0 <= spec_start_after(vs, n, start, mask),
        spec_start_after(vs, n, start, mask) <= start || spec_start_after(vs, n, start, mask) <= mask,
    decreases n,
{
    if n > 0 {
        lemma_start_range(vs, n - 1, start, mask);
        lemma_mask_range(vs[n - 1].m_texture_info);
    }
}

impl REntity {
    /// Applies step (`prim`, `word`, `start`, `mask`) to the primitive's vertices.
    fn remap_primitive(&mut self, prim: usize, word: i32, start: i32, mask: i32)
        requires
            prim < old(self).m_sub_meshes@.len(),
            spec_step_fits(TextureStep { m_primitive: prim as int, m_word: word as int, m_start: start as int, m_mask: mask }),
            mask == 0xFF || mask == 0x3FF,
        ensures
            spec_same_but_vertices(final(self).m_sub_meshes@, old(self).m_sub_meshes@),
            spec_sub_vertices(final(self).m_sub_meshes@) == spec_apply_step(
                spec_sub_vertices(old(self).m_sub_meshes@),
                TextureStep { m_primitive: prim as int, m_word: word as int, m_start: start as int, m_mask: mask },
            ),
            final(self).m_sent == old(self).m_sent,
            final(self).m_changed == old(self).m_changed,
            final(self).m_renderer_id == old(self).m_renderer_id,
    {
        let mut p = self.m_sub_meshes.remove(prim);
        let ghost vs = p.m_vertices@;
        let ghost p_kind = p.m_kind;
        let ghost p_name = p.m_name@;
        let ghost p_indices = p.m_indices@;
        let mut s: i32 = start;
        let mut i: usize = 0;
        while i < p.m_vertices.len()
            invariant
                0 <= i <= p.m_vertices@.len() == vs.len(),
                p.m_kind == p_kind,
                p.m_name@ == p_name,
                p.m_indices@ == p_indices,
                s == spec_start_after(vs, i as int, start as int, mask),
                0 <= start <= u16::MAX,
                mask == 0xFF || mask == 0x3FF,
                i32::MIN <= word,
                word + start <= i32::MAX,
                word + mask <= i32::MAX,
                forall|j: int| i <= j < vs.len() ==> #[trigger] p.m_vertices@[j] == vs[j],
                forall|j: int|
                    0 <= j < i ==> #[trigger] p.m_vertices@[j] == spec_remap(vs, word as int, start as int, mask)[j],
            decreases p.m_vertices.len() - i,
        {
            let mut v = p.m_vertices[i];
            if v.m_texture_info != -1 {
                s = v.m_texture_info & mask;
            }
            proof {
                lemma_start_range(vs, i + 1, start as int, mask);
                assert(s == spec_start_after(vs, i + 1, start as int, mask));
            }
            v.m_texture_info = word + s;
            p.m_vertices.set(i, v);
            i = i + 1;
        }
        proof {
            assert(p.m_vertices@ =~= spec_remap(vs, word as int, start as int, mask));
        }
        self.m_sub_meshes.insert(prim, p);
        proof {
            assert(self.m_sub_meshes@ =~= old(self).m_sub_meshes@.update(prim as int, p));
            assert(spec_sub_vertices(self.m_sub_meshes@) =~= spec_apply_step(
                spec_sub_vertices(old(self).m_sub_meshes@),
                TextureStep { m_primitive: prim as int, m_word: word as int, m_start: start as int, m_mask: mask },
            ));
        }
    }

    /// Maps the layers of `texture_array` onto the primitives as `method`
    /// says (see `spec_method_steps`, `spec_random_steps` and the custom pairs:
    /// only the first pair whose primitive exists is applied). Each vertex of
    /// a primitive mapped gets the word `width << 16 | (depth + 1) << 8`
    /// (custom: `width << 20 | depth << 8`) plus the start depth it carries.
    pub fn map_texture_array(&mut self, texture_array: &TextureArray, method: EnumPrimitiveMapMethod)
        requires
            ({
                let ts = texture_array.m_textures@;
                let subs = old(self).m_sub_meshes@.len();
                match method {
                    EnumPrimitiveMapMethod::Randomized => (ts.len() > 0 ==> texture_array.m_max_depth > 0)
                        && forall|k: int, d: int|
                        0 <= k < ts.len() && 0 <= d < texture_array.m_max_depth ==> spec_step_fits(
                            #[trigger] spec_layer_step(ts[k].m_width, d, spec_depth(ts[k].m_type) as int),
                        ),
                    EnumPrimitiveMapMethod::Custom(map) => {
                        let f = spec_first_custom(map@, subs as int, 0);
                        f < map@.len() ==> map@[f].1 < ts.len() && spec_step_fits(
                            spec_custom_step(ts, map@[f].0, map@[f].1),
                        )
                    },
                    EnumPrimitiveMapMethod::OnePerSubPrimitiveWithOffset(o) => forall|k: int|
                        0 <= k < ts.len() ==> spec_depth((#[trigger] ts[k]).m_type) + o < u16::MAX
                            && spec_step_fits(spec_method_steps(ts, method)[k]),
                    _ => forall|k: int|
                        0 <= k < ts.len() ==> spec_depth((#[trigger] ts[k]).m_type) < u16::MAX
                            && spec_step_fits(spec_method_steps(ts, method)[k]),
                }
            }),
        ensures
            spec_same_but_vertices(final(self).m_sub_meshes@, old(self).m_sub_meshes@),
            final(self).m_sent == old(self).m_sent,
            final(self).m_changed == old(self).m_changed,
            ({
                let ts = texture_array.m_textures@;
                let vv = spec_sub_vertices(old(self).m_sub_meshes@);
                let out = spec_sub_vertices(final(self).m_sub_meshes@);
                match method {
                    EnumPrimitiveMapMethod::Randomized => exists|ds: Seq<u16>|
                        ds.len() == ts.len() && (forall|k: int|
                            0 <= k < ds.len() ==> #[trigger] ds[k] < texture_array.m_max_depth)
                            && out == spec_apply_steps(vv, spec_random_steps(ts, ds), ts.len() as int),
                    EnumPrimitiveMapMethod::Custom(map) => {
                        let f = spec_first_custom(map@, vv.len() as int, 0);
                        out == if f < map@.len() {
                            spec_apply_step(vv, spec_custom_step(ts, map@[f].0, map@[f].1))
                        } else {
                            vv
                        }
                    },
                    _ => out == spec_apply_steps(vv, spec_method_steps(ts, method), ts.len() as int),
                }
            }),
    {
        let ghost vv = spec_sub_vertices(self.m_sub_meshes@);
        let ghost ts = texture_array.m_textures@;
        let n = texture_array.m_textures.len();
        match &method {
            EnumPrimitiveMapMethod::Custom(map) => {
                let mut i: usize = 0;
                while i < map.len()
                    invariant
                        0 <= i <= map@.len(),
                        (match method {
                            EnumPrimitiveMapMethod::Custom(m) => m@ == map@,
                            _ => false,
                        }),
                        spec_first_custom(map@, vv.len() as int, 0) == spec_first_custom(map@, vv.len() as int, i as int),
                        spec_sub_vertices(self.m_sub_meshes@) == vv,
                        vv.len() == self.m_sub_meshes@.len(),
                        vv == spec_sub_vertices(old(self).m_sub_meshes@),
                        spec_same_but_vertices(self.m_sub_meshes@, old(self).m_sub_meshes@),
                        self.m_sent == old(self).m_sent,
                        self.m_changed == old(self).m_changed,
                        ts == texture_array.m_textures@,
                        spec_first_custom(map@, vv.len() as int, 0) < map@.len() ==> map@[spec_first_custom(
                            map@,
                            vv.len() as int,
                            0,
                        )].1 < ts.len() && spec_step_fits(
                            spec_custom_step(
                                ts,
                                map@[spec_first_custom(map@, vv.len() as int, 0)].0,
                                map@[spec_first_custom(map@, vv.len() as int, 0)].1,
                            ),
                        ),
                    decreases map.len() - i,
                {
                    let (prim, ti) = map[i];
                    assert(map@[i as int] == (prim, ti));
                    if prim < self.m_sub_meshes.len() {
                        let t = &texture_array.m_textures[ti as usize];
                        let d = t.m_type.get_depth();
                        let word: i32 = ((t.m_width as i32) << 20) + ((d as i32) << 8);
                        assert(spec_first_custom(map@, vv.len() as int, i as int) == i);
                        assert(spec_custom_step(ts, prim, ti) == TextureStep {
                            m_primitive: prim as int,
                            m_word: word as int,
                            m_start: d as int,
                            m_mask: 0x3FF,
                        });
                        self.remap_primitive(prim, word, d as i32, 0x3FF);
                        return;
                    }
                    i = i + 1;
                }
            },
            EnumPrimitiveMapMethod::Randomized => {
                let mut depths: Vec<u16> = Vec::new();
                let mut k: usize = 0;
                while k < n
                    invariant
                        0 <= k <= n == ts.len(),
                        ts == texture_array.m_textures@,
                        depths@.len() == k,
                        forall|j: int| 0 <= j < k ==> #[trigger] depths@[j] < texture_array.m_max_depth,
                        n > 0 ==> texture_array.m_max_depth > 0,
                    decreases n - k,
                {
                    let d = random_below(texture_array.m_max_depth);
                    depths.push(d);
                    k = k + 1;
                }
                self.map_texture_array_at_depths(texture_array, &depths);
            },
            _ => {
                let ghost steps = spec_method_steps(ts, method);
                let mut k: usize = 0;
                while k < n
                    invariant
                        0 <= k <= n == ts.len(),
                        ts == texture_array.m_textures@,
                        steps == spec_method_steps(ts, method),
                        !(method is Randomized) && !(method is Custom),
                        spec_sub_vertices(self.m_sub_meshes@) == spec_apply_steps(vv, steps, k as int),
                        vv.len() == self.m_sub_meshes@.len(),
                        vv == spec_sub_vertices(old(self).m_sub_meshes@),
                        spec_same_but_vertices(self.m_sub_meshes@, old(self).m_sub_meshes@),
                        self.m_sent == old(self).m_sent,
                        self.m_changed == old(self).m_changed,
                        match method {
                            EnumPrimitiveMapMethod::OnePerSubPrimitiveWithOffset(o) => forall|j: int|
                                0 <= j < ts.len() ==> spec_depth((#[trigger] ts[j]).m_type) + o < u16::MAX
                                    && spec_step_fits(spec_method_steps(ts, method)[j]),
                            _ => forall|j: int|
                                0 <= j < ts.len() ==> spec_depth((#[trigger] ts[j]).m_type) < u16::MAX
                                    && spec_step_fits(spec_method_steps(ts, method)[j]),
                        },
                    decreases n - k,
                {
                    let (ti, prim, d): (usize, usize, u16) = match &method {
                        EnumPrimitiveMapMethod::OnePerSubPrimitiveWithOffset(o) => {
                            assert(spec_depth(ts[k as int].m_type) + *o < u16::MAX);
                            (k, k, texture_array.m_textures[k].m_type.get_depth() + *o)
                        },
                        EnumPrimitiveMapMethod::OnePerSubPrimitiveReversed => {
                            let j = n - 1 - k;
                            assert(spec_depth(ts[j as int].m_type) < u16::MAX);
                            (j, k, texture_array.m_textures[j].m_type.get_depth())
                        },
                        _ => {
                            assert(spec_depth(ts[k as int].m_type) < u16::MAX);
                            let d0 = texture_array.m_textures[k].m_type.get_depth();
                            (k, d0 as usize, d0)
                        },
                    };
                    let t = &texture_array.m_textures[ti];
                    assert(steps[k as int] == spec_layer_step(t.m_width, d as int, prim as int));
                    let word: i32 = ((t.m_width as i32) << 16) + (((d + 1) as i32) << 8);
                    if prim < self.m_sub_meshes.len() {
                        self.remap_primitive(prim, word, d as i32, 0xFF);
                    }
                    k = k + 1;
                }
            },
        }
    }
}

impl REntity {
    /// Maps each layer `k` of `texture_array` onto the primitive at the layer's
    /// own depth, as layer `depths[k]` of the array (the depths a randomized
    /// mapping draws): each vertex gets the word `width << 16 | (depth + 1) << 8`
    /// plus the start depth it carries.
    pub fn map_texture_array_at_depths(&mut self, texture_array: &TextureArray, depths: &Vec<u16>)
        requires
            depths@.len() == texture_array.m_textures@.len(),
            forall|k: int| 0 <= k < depths@.len() ==> #[trigger] depths@[k] < u16::MAX,
            forall|k: int|
                0 <= k < depths@.len() ==> spec_step_fits(
                    #[trigger] spec_layer_step(
                        texture_array.m_textures@[k].m_width,
                        depths@[k] as int,
                        spec_depth(texture_array.m_textures@[k].m_type) as int,
                    ),
                ),
        ensures
            spec_same_but_vertices(final(self).m_sub_meshes@, old(self).m_sub_meshes@),
            final(self).m_sent == old(self).m_sent,
            final(self).m_changed == old(self).m_changed,
            spec_sub_vertices(final(self).m_sub_meshes@) == spec_apply_steps(
                spec_sub_vertices(old(self).m_sub_meshes@),
                spec_random_steps(texture_array.m_textures@, depths@),
                texture_array.m_textures@.len() as int,
            ),
    {
        let ghost vv = spec_sub_vertices(self.m_sub_meshes@);
        let ghost ts = texture_array.m_textures@;
        let n = texture_array.m_textures.len();
        let mut k: usize = 0;
        while k < n
            invariant
                0 <= k <= n == ts.len() == depths@.len(),
                ts == texture_array.m_textures@,
                spec_sub_vertices(self.m_sub_meshes@) == spec_apply_steps(vv, spec_random_steps(ts, depths@), k as int),
                vv.len() == self.m_sub_meshes@.len(),
                vv == spec_sub_vertices(old(self).m_sub_meshes@),
                spec_same_but_vertices(self.m_sub_meshes@, old(self).m_sub_meshes@),
                self.m_sent == old(self).m_sent,
                self.m_changed == old(self).m_changed,
                forall|j: int| 0 <= j < depths@.len() ==> #[trigger] depths@[j] < u16::MAX,
                forall|j: int|
                    0 <= j < depths@.len() ==> spec_step_fits(
                        #[trigger] spec_layer_step(ts[j].m_width, depths@[j] as int, spec_depth(ts[j].m_type) as int),
                    ),
            decreases n - k,
        {
            let t = &texture_array.m_textures[k];
            let d = depths[k];
            let prim = t.m_type.get_depth() as usize;
            let ghost step = spec_layer_step(ts[k as int].m_width, d as int, spec_depth(ts[k as int].m_type) as int);
            assert(spec_step_fits(step));
            assert(spec_random_steps(ts, depths@)[k as int] == step);
            let word: i32 = ((t.m_width as i32) << 16) + (((d + 1) as i32) << 8);
            if prim < self.m_sub_meshes.len() {
                self.remap_primitive(prim, word, d as i32, 0xFF);
            }
            k = k + 1;
        }
    }
}

/// Steps that agree on the first `n` give the same result after them.
proof fn lemma_steps_prefix(vv: Seq<Seq<Vertex>>, a: Seq<TextureStep>, b: Seq<TextureStep>, n: int)
    requires
        forall|m: int| 0 <= m < n ==> #[trigger] a[m] == b[m],
    ensures
        spec_apply_steps(vv, a, n) == spec_apply_steps(vv, b, n),
    decreases n,
{
    if n > 0 {
        lemma_steps_prefix(vv, a, b, n - 1);
    }
}

/// The bit patterns of `0.5f32`, `-0.5f32` and `-10.0f32`.
pub const C_F32_HALF: u32 = 0x3F00_0000;
pub const C_F32_MINUS_HALF: u32 = 0xBF00_0000;
pub const C_F32_MINUS_TEN: u32 = 0xC120_0000;

/// The corners of the unit cube centered on the origin.
pub open spec fn spec_cube_positions() -> Seq<Vec3Bits> {
    let h = C_F32_HALF;
    let m = C_F32_MINUS_HALF;
    seq![
        Vec3Bits { x: h, y: m, z: m },
        Vec3Bits { x: h, y: m, z: h },
        Vec3Bits { x: m, y: m, z: h },
        Vec3Bits { x: m, y: m, z: m },
        Vec3Bits { x: h, y: h, z: m },
        Vec3Bits { x: h, y: h, z: h },
        Vec3Bits { x: m, y: h, z: h },
        Vec3Bits { x: m, y: h, z: m },
    ]
}

/// The cube's face normals, in hundredths: down, up, right (its tiny z is
/// lost), front, left, back, right.
pub open spec fn spec_cube_normals() -> Seq<NormalBits> {
    seq![
        NormalBits { m_x: 0, m_y: 100, m_z: 0, m_x_negative: false, m_y_negative: true, m_z_negative: false },
        NormalBits { m_x: 0, m_y: 100, m_z: 0, m_x_negative: false, m_y_negative: false, m_z_negative: false },
        NormalBits { m_x: 100, m_y: 0, m_z: 0, m_x_negative: false, m_y_negative: false, m_z_negative: false },
        NormalBits { m_x: 0, m_y: 0, m_z: 100, m_x_negative: false, m_y_negative: false, m_z_negative: false },
        NormalBits { m_x: 100, m_y: 0, m_z: 0, m_x_negative: true, m_y_negative: false, m_z_negative: false },
        NormalBits { m_x: 0, m_y: 0, m_z: 100, m_x_negative: false, m_y_negative: false, m_z_negative: true },
        NormalBits { m_x: 100, m_y: 0, m_z: 0, m_x_negative: false, m_y_negative: false, m_z_negative: false },
    ]
}

/// The corners of the unit square in texture space.
pub open spec fn spec_cube_coords() -> Seq<Vec2Bits> {
    seq![
        Vec2Bits { x: 0, y: 0 },
        Vec2Bits { x: C_F32_ONE, y: 0 },
        Vec2Bits { x: C_F32_ONE, y: C_F32_ONE },
        Vec2Bits { x: 0, y: C_F32_ONE },
    ]
}

/// Vertex `i` of the default cube: a white vertex of entity 0 sampling
/// texture 0, given a corner, a normal and texture coordinates where the
/// tables have one for it.
pub open spec fn spec_cube_vertex(i: int) -> Vertex {
    let base = Vertex { m_texture_info: 0, ..spec_default_vertex() };
    let p = if i < 8 {
        Vertex { m_position: spec_cube_positions()[i], ..base }
    } else {
        base
    };
    let n = if i < 7 {
        Vertex { m_normal: spec_pack_normal(spec_cube_normals()[i]), ..p }
    } else {
        p
    };
    if i < 4 {
        Vertex { m_texture_coords: spec_cube_coords()[i], ..n }
    } else {
        n
    }
}

/// The default cube's index list.
pub open spec fn spec_cube_indices() -> Seq<u32> {
    seq![
        1u32, 0, 0, 2, 1, 0, 3, 2, 0, 4, 2, 1, 7, 3, 1, 6, 0, 1, 4, 2, 2, 5, 3, 2, 5, 3, 2, 1, 0, 2,
        1, 1, 3, 5, 2, 3, 6, 3, 3, 6, 2, 4, 7, 3, 4, 3, 0, 4, 4, 3, 5, 0, 0, 5, 3, 1, 5, 0, 3, 0,
        1, 0, 0, 3, 2, 0, 5, 1, 1, 4, 2, 1, 6, 0, 1, 0, 1, 6, 4, 2, 6, 1, 0, 6, 2, 0, 3, 1, 1, 3,
        6, 3, 3, 2, 1, 4, 6, 2, 4, 3, 0, 4, 7, 2, 5, 4, 2, 5, 3, 1, 5,
    ]
}

/// What an entity's renderer must be asked when it is sent again after a
/// change: the model transform to update (for the entity or, when draw calls
/// are minimized, its first primitive's entity, over all its primitives) and,
/// where its drawing mode changed, the new mode.
#[derive(Debug, Copy, Clone, PartialEq, Eq, Structural, Hash)]
pub struct ReapplyPlan {
    pub m_uuid: u64,
    pub m_instance_count: usize,
    pub m_new_mode: Option<EnumRendererRenderPrimitiveAs>,
}

impl REntity {
    /// The default entity: a unit cube, moved 10 units away from the viewer.
    pub fn default() -> (r: REntity)
        ensures
            r.m_renderer_id == u64::MAX,
            r.m_name@ == "Default Cube"@,
            r.m_type == EnumPrimitive::Mesh(EnumMaterial::Smooth),
            r.m_primitive_mode == EnumRendererRenderPrimitiveAs::Filled,
            r.m_last_primitive_mode == EnumRendererRenderPrimitiveAs::Filled,
            !r.m_sent,
            r.m_changed,
            r.m_transform[0] == (Vec3Bits { x: 0, y: 0, z: C_F32_MINUS_TEN }),
            r.m_transform[1] == (Vec3Bits { x: 0, y: 0, z: 0 }),
            r.m_transform[2] == (Vec3Bits { x: C_F32_ONE, y: C_F32_ONE, z: C_F32_ONE }),
            r.m_sub_meshes@.len() == 1,
            r.m_sub_meshes@[0].m_kind == EnumPrimitiveKind::Mesh,
            r.m_sub_meshes@[0].m_name@ == "Default Cube"@,
            r.m_sub_meshes@[0].m_vertices@ == Seq::new(36, |i: int| spec_cube_vertex(i)),
            r.m_sub_meshes@[0].m_indices@ == spec_cube_indices(),
    {
        let h = C_F32_HALF;
        let m = C_F32_MINUS_HALF;
        let positions = vec![
            Vec3Bits { x: h, y: m, z: m },
            Vec3Bits { x: h, y: m, z: h },
            Vec3Bits { x: m, y: m, z: h },
            Vec3Bits { x: m, y: m, z: m },
            Vec3Bits { x: h, y: h, z: m },
            Vec3Bits { x: h, y: h, z: h },
            Vec3Bits { x: m, y: h, z: h },
            Vec3Bits { x: m, y: h, z: m },
        ];
        let normals = vec![
            NormalBits { m_x: 0, m_y: 100, m_z: 0, m_x_negative: false, m_y_negative: true, m_z_negative: false },
            NormalBits { m_x: 0, m_y: 100, m_z: 0, m_x_negative: false, m_y_negative: false, m_z_negative: false },
            NormalBits { m_x: 100, m_y: 0, m_z: 0, m_x_negative: false, m_y_negative: false, m_z_negative: false },
            NormalBits { m_x: 0, m_y: 0, m_z: 100, m_x_negative: false, m_y_negative: false, m_z_negative: false },
            NormalBits { m_x: 100, m_y: 0, m_z: 0, m_x_negative: true, m_y_negative: false, m_z_negative: false },
            NormalBits { m_x: 0, m_y: 0, m_z: 100, m_x_negative: false, m_y_negative: false, m_z_negative: true },
            NormalBits { m_x: 100, m_y: 0, m_z: 0, m_x_negative: false, m_y_negative: false, m_z_negative: false },
        ];
        let coords = vec![
            Vec2Bits { x: 0, y: 0 },
            Vec2Bits { x: C_F32_ONE, y: 0 },
            Vec2Bits { x: C_F32_ONE, y: C_F32_ONE },
            Vec2Bits { x: 0, y: C_F32_ONE },
        ];
        assert(positions@ =~= spec_cube_positions());
        assert(normals@ =~= spec_cube_normals());
        assert(coords@ =~= spec_cube_coords());
        let mut vertices: Vec<Vertex> = Vec::new();
        let mut i: usize = 0;
        while i < 36
            invariant
                0 <= i <= 36,
                positions@ == spec_cube_positions(),
                normals@ == spec_cube_normals(),
                coords@ == spec_cube_coords(),
                vertices@ == Seq::new(i as nat, |j: int| spec_cube_vertex(j)),
            decreases 36 - i,
        {
            let mut v = Vertex::default();
            v.m_texture_info = 0;
            if i < 8 {
                v.m_position = positions[i];
            }
            if i < 7 {
                v.m_normal = pack_normal(normals[i]);
            }
            if i < 4 {
                v.m_texture_coords = coords[i];
            }
            vertices.push(v);
            i = i + 1;
            assert(vertices@ =~= Seq::new(i as nat, |j: int| spec_cube_vertex(j)));
        }
        let indices: Vec<u32> = vec![
            1, 0, 0, 2, 1, 0, 3, 2, 0, 4, 2, 1, 7, 3, 1, 6, 0, 1, 4, 2, 2, 5, 3, 2, 5, 3, 2, 1, 0, 2,
            1, 1, 3, 5, 2, 3, 6, 3, 3, 6, 2, 4, 7, 3, 4, 3, 0, 4, 4, 3, 5, 0, 0, 5, 3, 1, 5, 0, 3, 0,
            1, 0, 0, 3, 2, 0, 5, 1, 1, 4, 2, 1, 6, 0, 1, 0, 1, 6, 4, 2, 6, 1, 0, 6, 2, 0, 3, 1, 1, 3,
            6, 3, 3, 2, 1, 4, 6, 2, 4, 3, 0, 4, 7, 2, 5, 4, 2, 5, 3, 1, 5,
        ];
        assert(indices@ =~= spec_cube_indices());
        let name = "Default Cube";
        let mut subs: Vec<Primitive> = Vec::new();
        subs.push(
            Primitive {
                m_kind: EnumPrimitiveKind::Mesh,
                m_name: name.to_owned(),
                m_vertices: vertices,
                m_indices: indices,
            },
        );
        REntity {
            m_renderer_id: u64::MAX,
            m_name: name,
            m_sub_meshes: subs,
            m_type: EnumPrimitive::default(),
            m_primitive_mode: EnumRendererRenderPrimitiveAs::Filled,
            m_last_primitive_mode: EnumRendererRenderPrimitiveAs::Filled,
            m_transform: [
                Vec3Bits { x: 0, y: 0, z: C_F32_MINUS_TEN },
                Vec3Bits { x: 0, y: 0, z: 0 },
                Vec3Bits { x: C_F32_ONE, y: C_F32_ONE, z: C_F32_ONE },
            ],
            m_sent: false,
            m_changed: true,
        }
    }

    /// Whether two entities are the same: of the same kind and, for entities
    /// with primitives, of the same first vertex's entity; for empty ones, of
    /// the same total vertex and index counts.
    pub fn eq(&self, other: &REntity) -> (r: bool)
        requires
            self.m_sub_meshes@.len() > 0 ==> self.m_sub_meshes@[0].m_vertices@.len() > 0
                && other.m_sub_meshes@.len() > 0 && other.m_sub_meshes@[0].m_vertices@.len() > 0,
        ensures
            r == (self.m_type == other.m_type && if self.m_sub_meshes@.len() == 0 {
                spec_total_vertices(other.m_sub_meshes@, other.m_sub_meshes@.len() as int) == 0
                    && spec_total_indices(other.m_sub_meshes@, other.m_sub_meshes@.len() as int) == 0
            } else {
                self.m_sub_meshes@[0].m_vertices@[0].m_entity_id
                    == other.m_sub_meshes@[0].m_vertices@[0].m_entity_id
            }),
    {
        if self.m_sub_meshes.len() == 0 {
            if self.m_type != other.m_type {
                return false;
            }
            let mut k: usize = 0;
            while k < other.m_sub_meshes.len()
                invariant
                    0 <= k <= other.m_sub_meshes.len(),
                    self.m_sub_meshes@.len() == 0,
                    self.m_type == other.m_type,
                    spec_total_vertices(other.m_sub_meshes@, k as int) == 0,
                    spec_total_indices(other.m_sub_meshes@, k as int) == 0,
                decreases other.m_sub_meshes.len() - k,
            {
                if other.m_sub_meshes[k].m_vertices.len() != 0 || other.m_sub_meshes[k].m_indices.len() != 0 {
                    proof {
                        lemma_totals_grow(other.m_sub_meshes@, k + 1, other.m_sub_meshes@.len() as int);
                        assert(spec_total_vertices(other.m_sub_meshes@, k + 1) > 0 || spec_total_indices(
                            other.m_sub_meshes@,
                            k + 1,
                        ) > 0);
                    }
                    return false;
                }
                k = k + 1;
            }
            return true;
        }
        self.m_type == other.m_type && self.m_sub_meshes[0].m_vertices[0].m_entity_id
            == other.m_sub_meshes[0].m_vertices[0].m_entity_id
    }

    /// Clears the texture of the primitives: all of them when no list is
    /// given; otherwise only the first listed index is looked at, and its
    /// primitive, where there is one, is cleared.
    pub fn unmap_texture_at(&mut self, primitive_mapping: Option<Vec<usize>>)
        ensures
            spec_same_but_vertices(final(self).m_sub_meshes@, old(self).m_sub_meshes@),
            final(self).m_sent == old(self).m_sent,
            final(self).m_changed == old(self).m_changed,
            ({
                let vv = spec_sub_vertices(old(self).m_sub_meshes@);
                let out = spec_sub_vertices(final(self).m_sub_meshes@);
                match primitive_mapping {
                    None => out == vv.map_values(|vs: Seq<Vertex>| spec_untextured(vs)),
                    Some(list) => if list@.len() > 0 && list@[0] < vv.len() {
                        out == vv.update(list@[0] as int, spec_untextured(vv[list@[0] as int]))
                    } else {
                        out == vv
                    },
                }
            }),
    {
        match primitive_mapping {
            None => {
                let n = self.m_sub_meshes.len();
                let ghost vv = spec_sub_vertices(self.m_sub_meshes@);
                let mut k: usize = 0;
                while k < n
                    invariant
                        0 <= k <= n == self.m_sub_meshes@.len(),
                        vv == spec_sub_vertices(old(self).m_sub_meshes@),
                        spec_same_but_vertices(self.m_sub_meshes@, old(self).m_sub_meshes@),
                        self.m_sent == old(self).m_sent,
                        self.m_changed == old(self).m_changed,
                        forall|j: int| 0 <= j < k ==> #[trigger] spec_sub_vertices(self.m_sub_meshes@)[j] == spec_untextured(vv[j]),
                        forall|j: int| k <= j < n ==> #[trigger] spec_sub_vertices(self.m_sub_meshes@)[j] == vv[j],
                    decreases n - k,
                {
                    let ghost before = spec_sub_vertices(self.m_sub_meshes@);
                    assert(before[k as int] == vv[k as int]);
                    self.untexture_primitive(k);
                    proof {
                        assert forall|j: int| 0 <= j < k + 1 implies #[trigger] spec_sub_vertices(
                            self.m_sub_meshes@,
                        )[j] == spec_untextured(vv[j]) by {
                            if j < k {
                                assert(before[j] == spec_untextured(vv[j]));
                            }
                        }
                        assert forall|j: int| k + 1 <= j < n implies #[trigger] spec_sub_vertices(
                            self.m_sub_meshes@,
                        )[j] == vv[j] by {
                            assert(before[j] == vv[j]);
                        }
                    }
                    k = k + 1;
                }
                assert(spec_sub_vertices(self.m_sub_meshes@) =~= vv.map_values(|vs: Seq<Vertex>| spec_untextured(vs)));
            },
            Some(list) => {
                if list.len() > 0 {
                    let p = list[0];
                    if p < self.m_sub_meshes.len() {
                        self.untexture_primitive(p);
                    }
                }
            },
        }
    }

    fn untexture_primitive(&mut self, prim: usize)
        requires
            prim < old(self).m_sub_meshes@.len(),
        ensures
            spec_same_but_vertices(final(self).m_sub_meshes@, old(self).m_sub_meshes@),
            spec_sub_vertices(final(self).m_sub_meshes@) == spec_sub_vertices(old(self).m_sub_meshes@).update(
                prim as int,
                spec_untextured(old(self).m_sub_meshes@[prim as int].m_vertices@),
            ),
            final(self).m_sent == old(self).m_sent,
            final(self).m_changed == old(self).m_changed,
    {
        let mut p = self.m_sub_meshes.remove(prim);
        let ghost vs = p.m_vertices@;
        let ghost p_kind = p.m_kind;
        let ghost p_name = p.m_name@;
        let ghost p_indices = p.m_indices@;
        let mut i: usize = 0;
        while i < p.m_vertices.len()
            invariant
                0 <= i <= p.m_vertices@.len() == vs.len(),
                p.m_kind == p_kind,
                p.m_name@ == p_name,
                p.m_indices@ == p_indices,
                forall|j: int| i <= j < vs.len() ==> #[trigger] p.m_vertices@[j] == vs[j],
                forall|j: int| 0 <= j < i ==> #[trigger] p.m_vertices@[j] == spec_untextured(vs)[j],
            decreases p.m_vertices.len() - i,
        {
            let mut v = p.m_vertices[i];
            v.m_texture_info = -1;
            p.m_vertices.set(i, v);
            i = i + 1;
        }
        assert(p.m_vertices@ =~= spec_untextured(vs));
        self.m_sub_meshes.insert(prim, p);
        proof {
            assert(self.m_sub_meshes@ =~= old(self).m_sub_meshes@.update(prim as int, p));
            assert(spec_sub_vertices(self.m_sub_meshes@) =~= spec_sub_vertices(old(self).m_sub_meshes@).update(
                prim as int,
                spec_untextured(vs),
            ));
        }
    }

    /// What a sent, changed entity asks of its renderer (`minimize`: draw
    /// calls are minimized); nothing otherwise.
    pub fn reapply_plan(&self, minimize: bool) -> (r: Option<ReapplyPlan>)
        requires
            minimize ==> self.m_sub_meshes@.len() > 0,
        ensures
            r == (if self.m_changed && self.m_sent {
                let uuid = if minimize {
                    (if self.m_sub_meshes@[0].m_vertices@.len() > 0 {
                        self.m_sub_meshes@[0].m_vertices@[0].m_entity_id
                    } else {
                        0u32
                    }) as u64
                } else {
                    self.m_renderer_id
                };
                Some(
                    ReapplyPlan {
                        m_uuid: uuid,
                        m_instance_count: self.m_sub_meshes@.len() as usize,
                        m_new_mode: if self.m_last_primitive_mode != self.m_primitive_mode {
                            Some(self.m_primitive_mode)
                        } else {
                            None
                        },
                    },
                )
            } else {
                None
            }),
    {
        if !(self.m_changed && self.m_sent) {
            return None;
        }
        let uuid = if minimize {
            self.m_sub_meshes[0].get_entity_id() as u64
        } else {
            self.m_renderer_id
        };
        let mode = if self.m_last_primitive_mode != self.m_primitive_mode {
            Some(self.m_primitive_mode)
        } else {
            None
        };
        Some(ReapplyPlan { m_uuid: uuid, m_instance_count: self.m_sub_meshes.len(), m_new_mode: mode })
    }

    /// Records that the renderer took the changes asked for: the drawing mode
    /// is current, and the entity unchanged.
    pub fn commit_reapply(&mut self)
        ensures
            *final(self) == (REntity {
                m_last_primitive_mode: old(self).m_primitive_mode,
                m_changed: false,
                ..*old(self)
            }),
    {
        self.m_last_primitive_mode = self.m_primitive_mode;
        self.m_changed = false;
    }
}

/// Vertices `vs` with no texture.
pub open spec fn spec_untextured(vs: Seq<Vertex>) -> Seq<Vertex> {
    vs.map_values(|v: Vertex| Vertex { m_texture_info: -1i32, ..v })
}


/// The name a material is shown with.
pub open spec fn spec_material_name(m: EnumMaterial) -> Seq<char> {
    match m {
        EnumMaterial::Flat => "Flat"@,
        EnumMaterial::Smooth => "Smooth"@,
        EnumMaterial::Noisy => "Noisy"@,
        EnumMaterial::Shiny => "Shiny"@,
        EnumMaterial::Metallic => "Metallic"@,
        EnumMaterial::Matte => "Matte"@,
    }
}

/// The way an entity's kind is shown: its variant, with its material for a mesh.
pub open spec fn spec_primitive_type_text(t: EnumPrimitive) -> Seq<char> {
    match t {
        EnumPrimitive::Sprite => "Sprite"@,
        EnumPrimitive::Mesh(m) => "Mesh("@ + spec_material_name(m) + ")"@,
        EnumPrimitive::Quad => "Quad"@,
    }
}

/// The description of a primitive: its vertex count, then on a line indented
/// by 115 its index count.
pub open spec fn spec_primitive_text(p: Primitive) -> Seq<char> {
    "Vertices:\t"@ + spec_dec(p.m_vertices@.len()) + "\n"@ + spec_spaces(115) + "Indices:\t"@ + spec_dec(
        p.m_indices@.len(),
    )
}

/// The description of the first `n` primitives of an entity, each under its
/// position from 1.
pub open spec fn spec_primitive_lines(p: Seq<Primitive>, n: int) -> Seq<char>
    decreases n,
{
    if n <= 0 {
        Seq::empty()
    } else {
        spec_primitive_lines(p, n - 1) + "\n"@ + spec_spaces(113) + "["@ + spec_dec(n as nat) + "]:\n"@
            + spec_spaces(115) + spec_primitive_text(p[n - 1])
    }
}

/// The description of an entity: its identifier, kind, whether it was sent,
/// then its primitives.
pub open spec fn spec_entity_text(e: REntity) -> Seq<char> {
    "UUID: "@ + spec_dec(e.m_renderer_id as nat) + "\n"@ + spec_spaces(113) + "Type: "@
        + spec_primitive_type_text(e.m_type) + "\n"@ + spec_spaces(113) + "Sent?: "@ + (if e.m_sent {
        "true"@
    } else {
        "false"@
    }) + "\n"@ + spec_spaces(113) + "Data:"@ + spec_primitive_lines(
        e.m_sub_meshes@,
        e.m_sub_meshes@.len() as int,
    )
}

impl Primitive {
    pub fn to_string(&self) -> (r: String)
        ensures
            r@ == spec_primitive_text(*self),
    {
        let mut s = String::new();
        s.append("Vertices:\t");
        append_dec(&mut s, self.m_vertices.len() as u64);
        s.append("\n");
        append_spaces(&mut s, 115);
        s.append("Indices:\t");
        append_dec(&mut s, self.m_indices.len() as u64);
        s
    }
}

fn material_name(m: EnumMaterial) -> (r: &'static str)
    ensures
        r@ == spec_material_name(m),
{
    match m {
        EnumMaterial::Flat => "Flat",
        EnumMaterial::Smooth => "Smooth",
        EnumMaterial::Noisy => "Noisy",
        EnumMaterial::Shiny => "Shiny",
        EnumMaterial::Metallic => "Metallic",
        EnumMaterial::Matte => "Matte",
    }
}

impl REntity {
    pub fn to_string(&self) -> (r: String)
        ensures
            r@ == spec_entity_text(*self),
    {
        let mut s = String::new();
        s.append("UUID: ");
        append_dec(&mut s, self.m_renderer_id);
        s.append("\n");
        append_spaces(&mut s, 113);
        s.append("Type: ");
        match self.m_type {
            EnumPrimitive::Sprite => s.append("Sprite"),
            EnumPrimitive::Mesh(m) => {
                s.append("Mesh(");
                s.append(material_name(m));
                s.append(")");
            },
            EnumPrimitive::Quad => s.append("Quad"),
        }
        s.append("\n");
        append_spaces(&mut s, 113);
        s.append("Sent?: ");
        if self.m_sent {
            s.append("true");
        } else {
            s.append("false");
        }
        s.append("\n");
        append_spaces(&mut s, 113);
        s.append("Data:");
        let ghost head = s@;
        let mut k: usize = 0;
        while k < self.m_sub_meshes.len()
            invariant
                0 <= k <= self.m_sub_meshes@.len(),
                s@ == head + spec_primitive_lines(self.m_sub_meshes@, k as int),
            decreases self.m_sub_meshes.len() - k,
        {
            s.append("\n");
            append_spaces(&mut s, 113);
            s.append("[");
            append_dec(&mut s, (k + 1) as u64);
            s.append("]:\n");
            append_spaces(&mut s, 115);
            let text = self.m_sub_meshes[k].to_string();
            s.append(text.as_str());
            assert(s@ =~= head + spec_primitive_lines(self.m_sub_meshes@, (k + 1) as int));
            k = k + 1;
        }
        assert(s@ =~= spec_entity_text(*self));
        s
    }
}
} // verus!
