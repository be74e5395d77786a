//! Queuing an entity in the OpenGL context: the buffers of a shader's first
//! entity, the layout of the entity's primitives, their uploads, the draw
//! command and the camera block, in that order.

use vstd::prelude::*;

use crate::assets::r_assets::{
    spec_total_indices, spec_total_vertices, EnumMaterial, EnumPrimitive, Primitive, REntity, C_VERTEX_SIZE,
};
use crate::graphics::buffer::{
    spec_ubo_size, EnumBufferState, EnumUboSource, EnumUboTypeSize, GlAttributePointer, GlUbo, GlUboWrite,
    C_IBO_SIZE_LIMIT, C_MAT4_SIZE, C_VBO_SIZE_LIMIT,
};
use crate::graphics::gl_context::{
    spec_binds_blocks, spec_block_bindable, spec_data_pushable, spec_divisor_refused, spec_first_ubo,
    spec_layout_supported, spec_stored_indices, spec_vertex_sum, spec_index_sum, spec_primitive_vertices, lemma_first_ubo_kept, GlPrimitiveInfo, C_MODEL_BINDING,
    C_UBO_INSTANCES, C_WIREFRAME_BINDING, spec_new_ubo, spec_planned_primitive, spec_join_fits, spec_join_start,
    spec_primitives_wf, spec_similar, spec_ubo_named, GlBlockQuery, GlCommandData, GlContext, GlDrawCommandInfo,
    GlNewBufferIds, GlPrimitiveUploads,
};
use crate::graphics::renderer::{EnumGlBufferError, EnumOpenGLError, EnumRendererOptimizationMode};
use crate::graphics::shader::Shader;

verus! {

/// The vertex and index counts of each sub-mesh.
pub open spec fn spec_sub_counts(subs: Seq<Primitive>) -> Seq<(usize, usize)> {
    Seq::new(subs.len(), |k: int| (subs[k].m_vertices@.len() as usize, subs[k].m_indices@.len() as usize))
}

/// Whether some command of `cs` is drawn with shader `id`.
pub open spec fn spec_has_shader(cs: Seq<GlDrawCommandInfo>, id: u32) -> bool {
    exists|j: int| 0 <= j < cs.len() && (#[trigger] cs[j]).m_linked_shader == id
}

/// Whether some uniform buffer of `ubos` is the camera block.
pub open spec fn spec_has_camera(ubos: Seq<GlUbo>) -> bool {
    exists|i: int| 0 <= i < ubos.len() && spec_ubo_named(#[trigger] ubos[i], "ubo_camera"@)
}

/// Appending the model and wireframe blocks adds no camera block.
proof fn lemma_no_camera_added(before: Seq<GlUbo>, after: Seq<GlUbo>)
    requires
        after.len() == before.len() + 2,
        after.take(before.len() as int) == before,
        spec_ubo_named(after[before.len() as int], "ubo_model"@),
        spec_ubo_named(after[before.len() + 1int], "ubo_wireframe"@),
    ensures
        spec_has_camera(after) == spec_has_camera(before),
{
    reveal_strlit("ubo_camera");
    reveal_strlit("ubo_model");
    reveal_strlit("ubo_wireframe");
    let n = before.len() as int;
    if spec_has_camera(after) {
        let i = choose|i: int| 0 <= i < after.len() && spec_ubo_named(#[trigger] after[i], "ubo_camera"@);
        if i == n {
            assert(after[i].m_name->0@.len() == 9);
        } else if i == n + 1 {
            assert(after[i].m_name->0@.len() == 13);
        } else {
            assert(after[i] == after.take(n)[i]);
            assert(spec_ubo_named(before[i], "ubo_camera"@));
        }
    }
    if spec_has_camera(before) {
        let i = choose|i: int| 0 <= i < before.len() && spec_ubo_named(#[trigger] before[i], "ubo_camera"@);
        assert(after[i] == after.take(n)[i]);
        assert(spec_ubo_named(after[i], "ubo_camera"@));
    }
}

/// Whether the buffers of a shader's first entity `e` have sizes the API
/// takes: some vertex bytes, below the vertex buffer limit, and index bytes
/// within the index buffer limit where there are indices.
pub open spec fn spec_alloc_sizes_ok(e: REntity) -> bool {
    let vertices = spec_total_vertices(e.m_sub_meshes@, e.m_sub_meshes@.len() as int);
    let indices = spec_total_indices(e.m_sub_meshes@, e.m_sub_meshes@.len() as int);
    let vcap = C_VERTEX_SIZE * vertices;
    vcap != 0 && vcap < C_VBO_SIZE_LIMIT && (indices == 0 || 4 * indices <= C_IBO_SIZE_LIMIT)
}

/// The wireframe flag (off) and model matrix writes of the primitive in
/// entity slot `offset`.
pub open spec fn spec_slot_writes(offset: usize) -> Seq<GlUboWrite> {
    seq![
        GlUboWrite { m_offset: (16 * offset) as usize, m_size: 4, m_source: EnumUboSource::Integer(0) },
        GlUboWrite {
            m_offset: (C_MAT4_SIZE * offset) as usize,
            m_size: C_MAT4_SIZE,
            m_source: EnumUboSource::Matrix(0),
        },
    ]
}

/// Whether the first uniform buffer of block `name` in `ubos`, if any, has a
/// slot for each of `n` primitives.
pub open spec fn spec_first_ubo_holds(ubos: Seq<GlUbo>, name: Seq<char>, n: int) -> bool {
    forall|j: int| spec_first_ubo(ubos, name, j) ==> ubos[j].m_count + 1 >= n
}

/// Whether queuing `entity` with a shader that has no command yet succeeds
/// for certain: its buffers are accepted (see `alloc_buffers`), each
/// sub-mesh has vertices, each primitive has a slot in the first model and
/// wireframe blocks, and the camera block, where it is created and bound,
/// can be bound at binding 0.
pub open spec fn spec_fresh_queue_ok(before: GlContext, entity: REntity, shader: Shader, ids: GlEnqueueIds) -> bool {
    let subs = entity.m_sub_meshes@;
    let material = match entity.m_type {
        EnumPrimitive::Mesh(m) => m,
        _ => EnumMaterial::Smooth,
    };
    let attribs = ids.m_max_vertex_attribs;
    &&& !spec_has_shader(before.m_commands.m_draw_commands@, shader.m_program_id)
    &&& spec_alloc_sizes_ok(entity)
    &&& !spec_divisor_refused(material, attribs)
    &&& spec_layout_supported(attribs)
    &&& spec_binds_blocks(shader) ==> spec_block_bindable(ids.m_blocks, C_MODEL_BINDING, ids.m_blocks.m_model_index)
        && spec_block_bindable(ids.m_blocks, C_WIREFRAME_BINDING, ids.m_blocks.m_wireframe_index)
    &&& forall|q: int| 0 <= q < subs.len() ==> (#[trigger] subs[q]).m_vertices@.len() > 0
    &&& subs.len() <= C_UBO_INSTANCES + 1
    &&& spec_first_ubo_holds(before.m_ubo_buffers@, "ubo_wireframe"@, subs.len() as int)
    &&& spec_first_ubo_holds(before.m_ubo_buffers@, "ubo_model"@, subs.len() as int)
    &&& !spec_has_camera(before.m_ubo_buffers@) && shader.m_version < 420 ==> spec_block_bindable(
        ids.m_blocks,
        0,
        ids.m_camera_index,
    )
}

/// Whether the buffers at `vao`, `vbo` and `ibo` of context `c` take all of
/// `entity`'s primitives laid out from `start` (first vertex, first index
/// byte, first entity slot): the buffers exist and hold no more than their
/// capacity, they can grow by the whole entity within their limits and
/// counts, the indices shifted by the base index stay `u32` where draw calls
/// are minimized, and the first model and wireframe blocks have a slot for
/// each primitive.
pub open spec fn spec_target_takes(
    c: GlContext,
    entity: REntity,
    vao: usize,
    vbo: usize,
    ibo: usize,
    start: (int, int, int),
) -> bool {
    let subs = entity.m_sub_meshes@;
    let n = subs.len() as int;
    let tv = spec_total_vertices(subs, n);
    let ti = spec_total_indices(subs, n);
    &&& vao < c.m_vao_buffers@.len()
    &&& vbo < c.m_vbo_buffers@.len()
    &&& c.m_vbo_buffers@[vbo as int].m_length <= c.m_vbo_buffers@[vbo as int].m_capacity
    &&& c.m_vbo_buffers@[vbo as int].m_capacity + C_VERTEX_SIZE * tv <= C_VBO_SIZE_LIMIT
    &&& c.m_vbo_buffers@[vbo as int].m_count + tv <= usize::MAX
    &&& ti > 0 ==> {
        &&& ibo < c.m_ibo_buffers@.len()
        &&& c.m_ibo_buffers@[ibo as int].m_length <= c.m_ibo_buffers@[ibo as int].m_capacity
        &&& c.m_ibo_buffers@[ibo as int].m_capacity + 4 * ti <= C_IBO_SIZE_LIMIT
        &&& c.m_ibo_buffers@[ibo as int].m_count + ti <= usize::MAX
    }
    &&& c.m_settings.m_batch_mode == EnumRendererOptimizationMode::MinimizeDrawCalls ==> {
        &&& 0 <= start.0 <= i32::MAX
        &&& forall|q: int, m: int|
            0 <= q < n && 0 <= m < subs[q].m_indices@.len() ==> #[trigger] subs[q].m_indices@[m] + start.0
                <= u32::MAX
    }
    &&& exists|j: int| spec_first_ubo(c.m_ubo_buffers@, "ubo_wireframe"@, j)
    &&& exists|j: int| spec_first_ubo(c.m_ubo_buffers@, "ubo_model"@, j)
    &&& spec_first_ubo_holds(c.m_ubo_buffers@, "ubo_wireframe"@, start.2 + n)
    &&& spec_first_ubo_holds(c.m_ubo_buffers@, "ubo_model"@, start.2 + n)
    &&& C_MAT4_SIZE * (start.2 + n) <= usize::MAX
}

/// Whether queuing `entity` with a shader that already has a command
/// succeeds for certain: the entity's layout is supported, each sub-mesh has
/// vertices, the buffers it joins take it (those of each command of the
/// shader holding another entity, from where that command ends; else the
/// last buffers created, from the start), and the camera block, where it is
/// created and bound, can be bound at binding 0.
pub open spec fn spec_join_queue_ok(before: GlContext, entity: REntity, shader: Shader, ids: GlEnqueueIds) -> bool {
    let cs = before.m_commands.m_draw_commands@;
    let id = shader.m_program_id;
    let uuid = entity.m_renderer_id;
    let subs = entity.m_sub_meshes@;
    let material = match entity.m_type {
        EnumPrimitive::Mesh(m) => m,
        _ => EnumMaterial::Smooth,
    };
    let attribs = ids.m_max_vertex_attribs;
    let ibo_last = if before.m_ibo_buffers@.len() > 0 {
        (before.m_ibo_buffers@.len() - 1) as usize
    } else {
        0usize
    };
    &&& spec_has_shader(cs, id)
    &&& !spec_divisor_refused(material, attribs)
    &&& spec_layout_supported(attribs)
    &&& forall|q: int| 0 <= q < subs.len() ==> (#[trigger] subs[q]).m_vertices@.len() > 0
    &&& forall|j: int|
        0 <= j < cs.len() && spec_similar(#[trigger] cs[j], id, uuid) ==> spec_target_takes(
            before,
            entity,
            cs[j].m_vao_index,
            cs[j].m_vbo_index,
            cs[j].m_ibo_index,
            spec_join_start(cs[j].m_primitives@),
        )
    &&& !(exists|j: int| 0 <= j < cs.len() && spec_similar(#[trigger] cs[j], id, uuid)) ==> spec_target_takes(
        before,
        entity,
        (before.m_vao_buffers@.len() - 1) as usize,
        (before.m_vbo_buffers@.len() - 1) as usize,
        ibo_last,
        (0, 0, 0),
    )
    &&& !spec_has_camera(before.m_ubo_buffers@) && shader.m_version < 420 ==> spec_block_bindable(
        ids.m_blocks,
        0,
        ids.m_camera_index,
    )
}

proof fn lemma_primitive_vertices_nonneg_all(p: Seq<GlPrimitiveInfo>)
    requires
        spec_primitives_wf(p),
    ensures
        spec_primitive_vertices(p, p.len() as int) >= 0,
{
    lemma_primitive_vertices_nonneg_to(p, p.len() as int);
}

proof fn lemma_primitive_vertices_nonneg_to(p: Seq<GlPrimitiveInfo>, n: int)
    requires
        spec_primitives_wf(p),
        0 <= n <= p.len(),
    ensures
        spec_primitive_vertices(p, n) >= 0,
    decreases n,
{
    if n > 0 {
        lemma_primitive_vertices_nonneg_to(p, n - 1);
    }
}

proof fn lemma_totals_grow(subs: Seq<Primitive>, j: int, k: int)
    requires
        0 <= j <= k <= subs.len(),
    ensures
        0 <= spec_total_vertices(subs, j) <= spec_total_vertices(subs, k),
        0 <= spec_total_indices(subs, j) <= spec_total_indices(subs, k),
    decreases k,
{
    if j < k {
        lemma_totals_grow(subs, j, k - 1);
    } else if k > 0 {
        lemma_totals_grow(subs, 0, k - 1);
    }
}

/// After the model and wireframe blocks are appended, the first buffer of
/// each block still has a slot for each of `n` primitives, `n` being at most
/// one more than the instances of the new blocks.
proof fn lemma_first_ubos_after_alloc(before: Seq<GlUbo>, after: Seq<GlUbo>, n: int)
    requires
        after.len() == before.len() + 2,
        after.take(before.len() as int) == before,
        spec_ubo_named(after[before.len() as int], "ubo_model"@),
        spec_ubo_named(after[before.len() + 1int], "ubo_wireframe"@),
        after[before.len() as int].m_count == C_UBO_INSTANCES,
        after[before.len() + 1int].m_count == C_UBO_INSTANCES,
        n <= C_UBO_INSTANCES + 1,
        spec_first_ubo_holds(before, "ubo_wireframe"@, n),
        spec_first_ubo_holds(before, "ubo_model"@, n),
    ensures
        spec_first_ubo_holds(after, "ubo_wireframe"@, n),
        spec_first_ubo_holds(after, "ubo_model"@, n),
{
    reveal_strlit("ubo_model");
    reveal_strlit("ubo_wireframe");
    let b = before.len() as int;
    assert forall|j: int| spec_first_ubo(after, "ubo_wireframe"@, j) implies after[j].m_count + 1 >= n by {
        if j < b {
            assert forall|q: int| 0 <= q < j implies !spec_ubo_named(#[trigger] before[q], "ubo_wireframe"@) by {
                assert(after[q] == after.take(b)[q]);
            }
            assert(after[j] == after.take(b)[j]);
            assert(spec_first_ubo(before, "ubo_wireframe"@, j));
        } else if j == b {
            assert(after[j].m_name->0@.len() == 9);
        }
    }
    assert forall|j: int| spec_first_ubo(after, "ubo_model"@, j) implies after[j].m_count + 1 >= n by {
        if j < b {
            assert forall|q: int| 0 <= q < j implies !spec_ubo_named(#[trigger] before[q], "ubo_model"@) by {
                assert(after[q] == after.take(b)[q]);
            }
            assert(after[j] == after.take(b)[j]);
            assert(spec_first_ubo(before, "ubo_model"@, j));
        }
    }
}

/// Whether `u` holds the uploads of sub-mesh `p` laid out as `info`: its
/// vertices, and its indices where it has some (shifted by the base index
/// where draw calls are minimized), then the writes of its entity slot.
pub open spec fn spec_uploads_of(u: GlPrimitiveUploads, p: Primitive, info: GlPrimitiveInfo, minimize: bool) -> bool {
    let nv = p.m_vertices@.len();
    let ni = p.m_indices@.len();
    &&& u.m_data.m_vertex_write.m_count == nv
    &&& u.m_data.m_vertex_write.m_size == C_VERTEX_SIZE * nv
    &&& u.m_data.m_index_write is Some <==> ni > 0
    &&& u.m_data.m_index_write matches Some(w) ==> w.m_count == ni && w.m_size == 4 * ni
    &&& u.m_data.m_indices@ == (if ni > 0 {
        spec_stored_indices(p.m_indices@, info.m_base_index, minimize)
    } else {
        Seq::<u32>::empty()
    })
    &&& u.m_ubo_writes@ == spec_slot_writes(info.m_entity_offset)
}

/// Whether `entity` can be queued with shader `shader_id` in context `c`
/// without an overflow: its buffer sizes fit the machine word, a shader that
/// has a command has buffers to lay it out in, and the primitives of every
/// command (and a new command's) stay within the counts of the layout.
pub open spec fn spec_enqueue_fits(c: GlContext, entity: REntity, shader_id: u32) -> bool {
    let subs = entity.m_sub_meshes@;
    let cs = c.m_commands.m_draw_commands@;
    let counts = spec_sub_counts(subs);
    &&& C_VERTEX_SIZE * spec_total_vertices(subs, subs.len() as int) <= usize::MAX
    &&& 4 * spec_total_indices(subs, subs.len() as int) <= usize::MAX
    &&& spec_has_shader(cs, shader_id) ==> c.m_vao_buffers@.len() > 0 && c.m_vbo_buffers@.len() > 0
    &&& forall|j: int|
        0 <= j < cs.len() ==> spec_primitives_wf((#[trigger] cs[j]).m_primitives@) && spec_join_fits(
            cs[j].m_primitives@,
            counts,
        )
    &&& spec_join_fits(Seq::empty(), counts)
}

/// What the API created or reports for queuing an entity: the objects of a
/// shader's first entity and what the shader reports of its blocks, the
/// camera block's buffer and index, for each sub-mesh the vertex and index
/// buffers to move to where a shared buffer must grow, and the most vertex
/// attributes.
#[derive(Debug, Clone)]
pub struct GlEnqueueIds {
    pub m_new: GlNewBufferIds,
    pub m_blocks: GlBlockQuery,
    pub m_camera_ubo: u32,
    pub m_camera_index: u32,
    pub m_grown: Vec<(u32, u32)>,
    pub m_max_vertex_attribs: i32,
}

/// What queuing an entity asks of the API: the attribute pointers of the
/// buffers created for a shader's first entity (and whether their blocks were
/// bound), the draw command laid out, each primitive's uploads, the command's
/// data, and, where the camera block was created, whether it was bound.
#[derive(Debug, Clone)]
pub struct GlEnqueuePlan {
    pub m_alloc: Option<(Vec<GlAttributePointer>, bool)>,
    pub m_command: GlDrawCommandInfo,
    pub m_uploads: Vec<GlPrimitiveUploads>,
    pub m_command_data: GlCommandData,
    pub m_camera: Option<bool>,
}

/// The counts of each sub-mesh of `subs`.
pub fn sub_mesh_counts(subs: &Vec<Primitive>) -> (r: Vec<(usize, usize)>)
    ensures
        r@ == spec_sub_counts(subs@),
{
    let mut r: Vec<(usize, usize)> = Vec::new();
    let mut k: usize = 0;
    while k < subs.len()
        invariant
            0 <= k <= subs@.len(),
            r@ == spec_sub_counts(subs@).take(k as int),
        decreases subs@.len() - k,
    {
        r.push((subs[k].m_vertices.len(), subs[k].m_indices.len()));
        k = k + 1;
        assert(r@ =~= spec_sub_counts(subs@).take(k as int));
    }
    assert(r@ =~= spec_sub_counts(subs@));
    r
}

/// The vertices and indices of all `subs`.
fn sub_totals(subs: &Vec<Primitive>) -> (r: (u128, u128))
    ensures
        r.0 == spec_total_vertices(subs@, subs@.len() as int),
        r.1 == spec_total_indices(subs@, subs@.len() as int),
{
    let mut v: u128 = 0;
    let mut i: u128 = 0;
    let mut k: usize = 0;
    while k < subs.len()
        invariant
            0 <= k <= subs@.len(),
            v == spec_total_vertices(subs@, k as int),
            i == spec_total_indices(subs@, k as int),
            v <= k * 0x1_0000_0000_0000_0000,
            i <= k * 0x1_0000_0000_0000_0000,
        decreases subs@.len() - k,
    {
        v = v + subs[k].m_vertices.len() as u128;
        i = i + subs[k].m_indices.len() as u128;
        k = k + 1;
    }
    (v, i)
}

/// The vertex and index sums of all `counts`.
fn count_sums(counts: &Vec<(usize, usize)>) -> (r: (u128, u128))
    ensures
        r.0 == spec_vertex_sum(counts@, counts@.len() as int),
        r.1 == spec_index_sum(counts@, counts@.len() as int),
{
    let mut v: u128 = 0;
    let mut i: u128 = 0;
    let mut k: usize = 0;
    while k < counts.len()
        invariant
            0 <= k <= counts@.len(),
            v == spec_vertex_sum(counts@, k as int),
            i == spec_index_sum(counts@, k as int),
            v <= k * 0x1_0000_0000_0000_0000,
            i <= k * 0x1_0000_0000_0000_0000,
        decreases counts@.len() - k,
    {
        v = v + counts[k].0 as u128;
        i = i + counts[k].1 as u128;
        k = k + 1;
    }
    (v, i)
}

/// Whether the primitives of `p` are well formed and, if so, the vertices
/// they hold.
fn primitives_vertices(p: &Vec<GlPrimitiveInfo>) -> (r: Option<i128>)
    ensures
        r is Some <==> spec_primitives_wf(p@),
        r matches Some(v) ==> v == spec_primitive_vertices(p@, p@.len() as int),
{
    let mut v: i128 = 0;
    let mut k: usize = 0;
    while k < p.len()
        invariant
            0 <= k <= p@.len(),
            v == spec_primitive_vertices(p@, k as int),
            0 <= v <= k * 0x8000_0000,
            forall|i: int| 0 <= i < k ==> (#[trigger] p@[i]).m_vbo_count >= 0 && p@[i].m_ibo_count >= 0
                && p@[i].m_ibo_offset >= 0,
        decreases p@.len() - k,
    {
        let q = p[k];
        if q.m_vbo_count < 0 || q.m_ibo_count < 0 || q.m_ibo_offset < 0 {
            return None;
        }
        v = v + q.m_vbo_count as i128;
        k = k + 1;
    }
    Some(v)
}

/// Whether a new entity with sums `sums` (vertices, indices) and `n`
/// sub-meshes can join primitives `p` (see `spec_join_fits`).
fn join_fits(p: &Vec<GlPrimitiveInfo>, base: i128, sums: (u128, u128), n: usize) -> (r: bool)
    requires
        spec_primitives_wf(p@),
        base == spec_primitive_vertices(p@, p@.len() as int),
        0 <= base,
    ensures
        r == spec_join_fits_with(p@, sums.0 as int, sums.1 as int, n as int),
{
    let len = p.len();
    if len > n_max_minus(n) {
        return false;
    }
    let mut offset: i128 = 0;
    if len > 0 {
        let last = p[len - 1];
        if last.m_ibo_count as i128 * 4 > 0x7fff_ffff {
            return false;
        }
        offset = last.m_ibo_offset as i128 + last.m_ibo_count as i128 * 4;
    }
    if sums.0 > 0x7fff_ffff || sums.1 > 0x7fff_ffff || base > 0x7fff_ffff {
        return false;
    }
    base + sums.0 as i128 <= 0x7fff_ffff && offset + 4 * sums.1 as i128 <= 0x7fff_ffff
}

/// The most earlier primitives that leave room for `n` more entity slots.
fn n_max_minus(n: usize) -> (r: usize)
    ensures
        r == usize::MAX - n,
{
    usize::MAX - n
}

/// `spec_join_fits` over the sums of the counts and their number.
pub open spec fn spec_join_fits_with(prev: Seq<GlPrimitiveInfo>, vsum: int, isum: int, n: int) -> bool {
    let start = spec_join_start(prev);
    &&& prev.len() > 0 ==> prev.last().m_ibo_count * 4 <= i32::MAX
    &&& start.0 + vsum <= i32::MAX
    &&& start.1 + 4 * isum <= i32::MAX
    &&& start.2 + n <= usize::MAX
}

/// Whether `base_index` is not negative and each of `indices` shifted by it
/// stays a `u32`.
pub fn indices_fit(indices: &Vec<u32>, base_index: i32) -> (r: bool)
    ensures
        r == (base_index >= 0 && forall|k: int|
            0 <= k < indices@.len() ==> #[trigger] indices@[k] + base_index <= u32::MAX),
{
    if base_index < 0 {
        return false;
    }
    let mut k: usize = 0;
    while k < indices.len()
        invariant
            0 <= k <= indices@.len(),
            base_index >= 0,
            forall|m: int| 0 <= m < k ==> #[trigger] indices@[m] + base_index <= u32::MAX,
        decreases indices@.len() - k,
    {
        if indices[k] as u64 + base_index as u64 > u32::MAX as u64 {
            assert(indices@[k as int] + base_index > u32::MAX);
            return false;
        }
        k = k + 1;
    }
    true
}

impl GlContext {
    /// Whether `spec_data_pushable` holds: the buffers can take `p` without a
    /// count or size overflowing.
    pub fn data_pushable(&self, vbo_index: usize, ibo_index: usize, p: &Primitive, base_index: i32) -> (r: bool)
        ensures
            r == spec_data_pushable(*self, vbo_index, ibo_index, *p, base_index),
    {
        if vbo_index >= self.m_vbo_buffers.len() {
            return false;
        }
        let vbo = self.m_vbo_buffers[vbo_index];
        if vbo.m_length > C_VBO_SIZE_LIMIT || vbo.m_capacity > C_VBO_SIZE_LIMIT {
            return false;
        }
        let nv = p.m_vertices.len();
        if vbo.m_count > usize::MAX - nv {
            return false;
        }
        match C_VERTEX_SIZE.checked_mul(nv) {
            None => {
                return false;
            },
            Some(b) => {
                if b > isize::MAX as usize {
                    return false;
                }
            },
        }
        let ni = p.m_indices.len();
        if ni > 0 {
            if ibo_index >= self.m_ibo_buffers.len() {
                return false;
            }
            let ibo = self.m_ibo_buffers[ibo_index];
            if ibo.m_length > C_IBO_SIZE_LIMIT || ibo.m_capacity > C_IBO_SIZE_LIMIT {
                return false;
            }
            if ibo.m_count > usize::MAX - ni {
                return false;
            }
            match 4usize.checked_mul(ni) {
                None => {
                    return false;
                },
                Some(b) => {
                    if b > isize::MAX as usize {
                        return false;
                    }
                },
            }
        }
        if self.m_settings.m_batch_mode == EnumRendererOptimizationMode::MinimizeDrawCalls {
            return indices_fit(&p.m_indices, base_index);
        }
        true
    }
}

/// Whether queuing `entity` with `shader` in context `before` (see
/// `GlContext::enqueue`) may leave `after` and answer `r`: where the shader
/// had no command, the entity's buffers being refused changes nothing, a
/// refused layout or block binding is answered with its error; a queue that
/// `spec_fresh_queue_ok` (a shader's first entity) or `spec_join_queue_ok`
/// (a shader with a command) accepts succeeds; on success, buffers were
/// created exactly where the shader had no command, the command laid out is
/// queued (joining the shader's last command), each primitive's uploads are
/// its vertices, its indices and the writes of its entity slot, and the
/// camera block is created, as the last uniform buffer, exactly where none
/// existed.
pub open spec fn spec_enqueued(
    before: GlContext,
    after: GlContext,
    entity: REntity,
    shader: Shader,
    ids: GlEnqueueIds,
    r: Result<GlEnqueuePlan, EnumOpenGLError>,
) -> bool {
    let cs = before.m_commands.m_draw_commands@;
    let shader_id = shader.m_program_id;
    let uuid = entity.m_renderer_id;
    let counts = spec_sub_counts(entity.m_sub_meshes@);
    let found = spec_has_shader(cs, shader_id);
    let similar = exists|j: int| 0 <= j < cs.len() && spec_similar(#[trigger] cs[j], shader_id, uuid);
    let material = match entity.m_type {
        EnumPrimitive::Mesh(m) => m,
        _ => EnumMaterial::Smooth,
    };
    let attribs = ids.m_max_vertex_attribs;
    &&& !found && !spec_alloc_sizes_ok(entity) ==> r == Err::<GlEnqueuePlan, EnumOpenGLError>(
        EnumOpenGLError::InvalidBufferOperation(EnumGlBufferError::InvalidBufferSize),
    ) && after == before
    &&& !found && spec_alloc_sizes_ok(entity) && spec_divisor_refused(material, attribs) ==> r == Err::<
        GlEnqueuePlan,
        EnumOpenGLError,
    >(EnumOpenGLError::InvalidBufferOperation(EnumGlBufferError::InvalidAttributeDivisor))
    &&& !found && spec_alloc_sizes_ok(entity) && !spec_divisor_refused(material, attribs)
        && !spec_layout_supported(attribs) ==> r == Err::<GlEnqueuePlan, EnumOpenGLError>(
        EnumOpenGLError::InvalidBufferOperation(EnumGlBufferError::InvalidVertexAttribute),
    )
    &&& !found && spec_alloc_sizes_ok(entity) && !spec_divisor_refused(material, attribs)
        && spec_layout_supported(attribs) && spec_binds_blocks(shader) && !(spec_block_bindable(
        ids.m_blocks,
        C_MODEL_BINDING,
        ids.m_blocks.m_model_index,
    ) && spec_block_bindable(ids.m_blocks, C_WIREFRAME_BINDING, ids.m_blocks.m_wireframe_index))
        ==> r == Err::<GlEnqueuePlan, EnumOpenGLError>(
        EnumOpenGLError::InvalidBufferOperation(EnumGlBufferError::InvalidBlockBinding),
    )
    &&& spec_fresh_queue_ok(before, entity, shader, ids) ==> r is Ok
    &&& spec_join_queue_ok(before, entity, shader, ids) ==> r is Ok
    &&& r matches Ok(p) ==> {
        let c = p.m_command;
        let cv = (c.m_linked_shader, c.m_vao_index, c.m_vbo_index, c.m_ibo_index, c.m_primitives@);
        &&& p.m_alloc is Some <==> !found
        &&& c.m_linked_shader == shader_id
        &&& c.m_primitives@.len() == counts.len()
        &&& !similar ==> c.m_vao_index == after.m_vao_buffers@.len() - 1
            && c.m_vbo_index == after.m_vbo_buffers@.len() - 1
            && forall|k: int|
            0 <= k < counts.len() ==> #[trigger] c.m_primitives@[k] == spec_planned_primitive(
                uuid,
                counts,
                (0, 0, 0),
                k,
            )
        &&& similar ==> exists|j: int|
            #![trigger cs[j]]
            0 <= j < cs.len() && spec_similar(cs[j], shader_id, uuid) && (forall|m: int|
                j < m < cs.len() ==> !spec_similar(#[trigger] cs[m], shader_id, uuid))
                && c.m_vao_index == cs[j].m_vao_index && c.m_vbo_index == cs[j].m_vbo_index
                && c.m_ibo_index == cs[j].m_ibo_index && forall|k: int|
                0 <= k < counts.len() ==> #[trigger] c.m_primitives@[k] == spec_planned_primitive(
                    uuid,
                    counts,
                    spec_join_start(cs[j].m_primitives@),
                    k,
                )
        &&& !found ==> after.spec_commands() == before.spec_commands().push(cv)
        &&& found ==> exists|j: int|
            #![trigger cs[j]]
            0 <= j < cs.len() && cs[j].m_linked_shader == shader_id && (forall|m: int|
                j < m < cs.len() ==> (#[trigger] cs[m]).m_linked_shader != shader_id)
                && after.spec_commands() == before.spec_commands().update(
                j,
                (
                    cs[j].m_linked_shader,
                    cs[j].m_vao_index,
                    cs[j].m_vbo_index,
                    cs[j].m_ibo_index,
                    cs[j].m_primitives@ + c.m_primitives@,
                ),
            )
        &&& p.m_uploads@.len() == counts.len()
        &&& forall|k: int|
            0 <= k < counts.len() ==> spec_uploads_of(
                #[trigger] p.m_uploads@[k],
                entity.m_sub_meshes@[k],
                c.m_primitives@[k],
                before.m_settings.m_batch_mode == EnumRendererOptimizationMode::MinimizeDrawCalls,
            )
        &&& p.m_camera is None <==> spec_has_camera(before.m_ubo_buffers@)
        &&& p.m_camera matches Some(bound) ==> bound == (shader.m_version < 420) && spec_new_ubo(
            after.m_ubo_buffers@.last(),
            "ubo_camera"@,
            ids.m_camera_ubo,
            EnumUboTypeSize::ViewProjection,
            bound,
        )
    }
}

impl GlContext {
    /// Queues `entity` for drawing with `shader`. Where no command is drawn
    /// with the shader yet, the entity's buffers are created first (see
    /// `alloc_buffers`). Its primitives are then laid out (see
    /// `enqueue_layout`) and uploaded one after the other (see
    /// `push_buffers`, with the buffers to move to from `ids.m_grown`), and
    /// the command is queued (see `push_command`). Last, where no camera
    /// block exists yet, its uniform buffer is created in `ids.m_camera_ubo`
    /// for the view and projection matrices, its block bound at binding 0
    /// where the shader's GLSL is older than 4.2, and kept. The first step
    /// that fails ends the queuing with its error; a primitive the buffers
    /// cannot take without a count or size overflowing, or whose vertex array
    /// is missing, is refused with `InvalidBufferSize`, and without
    /// wireframe and model blocks the context is invalid.
    #[verifier::loop_isolation(false)]
    pub fn enqueue(&mut self, entity: &REntity, shader: &Shader, ids: &GlEnqueueIds) -> (r: Result<
        GlEnqueuePlan,
        EnumOpenGLError,
    >)
        requires
            entity.m_type is Mesh,
            ids.m_grown@.len() == entity.m_sub_meshes@.len(),
            spec_enqueue_fits(*old(self), *entity, shader.m_program_id),
        ensures
            final(self).m_extensions@ == old(self).m_extensions@,
            final(self).m_state == old(self).m_state,
            final(self).m_settings == old(self).m_settings,
            spec_enqueued(*old(self), *final(self), *entity, *shader, *ids, r),
    {
        let shader_id = shader.m_program_id;
        let ghost fresh = spec_fresh_queue_ok(*old(self), *entity, *shader, *ids);
        let ghost joined = spec_join_queue_ok(*old(self), *entity, *shader, *ids);
        let ghost old_ubos = self.m_ubo_buffers@;
        let ghost subs = entity.m_sub_meshes@;
        let ghost tv = spec_total_vertices(subs, subs.len() as int);
        let ghost ti = spec_total_indices(subs, subs.len() as int);
        let mut alloc: Option<(Vec<GlAttributePointer>, bool)> = None;
        if self.m_commands.find_shader(shader_id).is_none() {
            match self.alloc_buffers(entity, shader, ids.m_new, ids.m_blocks, ids.m_max_vertex_attribs) {
                Err(e) => {
                    return Err(e);
                },
                Ok(a) => {
                    alloc = Some(a);
                    proof {
                        lemma_no_camera_added(old_ubos, self.m_ubo_buffers@);
                        if fresh {
                            lemma_first_ubos_after_alloc(old_ubos, self.m_ubo_buffers@, subs.len() as int);
                        }
                    }
                },
            }
        }
        let ghost mid_ubos = self.m_ubo_buffers@;
        assert(spec_has_camera(mid_ubos) == spec_has_camera(old_ubos));
        let counts = sub_mesh_counts(&entity.m_sub_meshes);
        let command = self.enqueue_layout(shader_id, entity.m_renderer_id, &counts);
        proof {
            if fresh {
                let cs = old(self).m_commands.m_draw_commands@;
                assert forall|j: int| 0 <= j < cs.len() implies !spec_similar(
                    #[trigger] cs[j],
                    shader_id,
                    entity.m_renderer_id,
                ) by {
                    assert(cs[j].m_linked_shader != shader_id);
                }
                assert(spec_total_vertices(subs, 0) == 0);
                assert(spec_total_indices(subs, 0) == 0);
                lemma_totals_grow(subs, 0, subs.len() as int);
            }
        }
        let ghost mut start: (int, int, int) = (0, 0, 0);
        proof {
            if joined {
                let cs = old(self).m_commands.m_draw_commands@;
                let uuid = entity.m_renderer_id;
                assert(*self == *old(self));
                if exists|j: int| 0 <= j < cs.len() && spec_similar(#[trigger] cs[j], shader_id, uuid) {
                    let j = choose|j: int|
                        #![trigger cs[j]]
                        0 <= j < cs.len() && spec_similar(cs[j], shader_id, uuid) && (forall|m: int|
                            j < m < cs.len() ==> !spec_similar(#[trigger] cs[m], shader_id, uuid))
                            && command.m_vao_index == cs[j].m_vao_index && command.m_vbo_index
                            == cs[j].m_vbo_index && command.m_ibo_index == cs[j].m_ibo_index && forall|k: int|
                            0 <= k < counts@.len() ==> #[trigger] command.m_primitives@[k]
                                == spec_planned_primitive(uuid, counts@, spec_join_start(cs[j].m_primitives@), k);
                    start = spec_join_start(cs[j].m_primitives@);
                }
                assert(spec_target_takes(
                    *self,
                    *entity,
                    command.m_vao_index,
                    command.m_vbo_index,
                    command.m_ibo_index,
                    start,
                ));
                assert(forall|k: int|
                    0 <= k < counts@.len() ==> #[trigger] command.m_primitives@[k] == spec_planned_primitive(
                        uuid,
                        counts@,
                        start,
                        k,
                    ));
                lemma_totals_grow(subs, 0, subs.len() as int);
            }
        }
        let ghost cs0 = self.m_commands;
        let ghost vao_len = self.m_vao_buffers@.len();
        let ghost vbo_len = self.m_vbo_buffers@.len();
        let ghost ibo_len = self.m_ibo_buffers@.len();
        let n = entity.m_sub_meshes.len();
        let mut uploads: Vec<GlPrimitiveUploads> = Vec::new();
        let mut k: usize = 0;
        while k < n
            invariant
                0 <= k <= n == entity.m_sub_meshes@.len() == command.m_primitives@.len() == ids.m_grown@.len(),
                entity.m_type is Mesh,
                uploads@.len() == k,
                forall|m: int|
                    0 <= m < k ==> spec_uploads_of(
                        #[trigger] uploads@[m],
                        entity.m_sub_meshes@[m],
                        command.m_primitives@[m],
                        old(self).m_settings.m_batch_mode == EnumRendererOptimizationMode::MinimizeDrawCalls,
                    ),
                self.m_commands == cs0,
                cs0 == old(self).m_commands,
                !spec_has_shader(cs0.m_draw_commands@, shader_id) ==> spec_alloc_sizes_ok(*entity),
                self.m_extensions@ == old(self).m_extensions@,
                self.m_state == old(self).m_state,
                self.m_settings == old(self).m_settings,
                self.m_vao_buffers@.len() == vao_len,
                self.m_vbo_buffers@.len() == vbo_len,
                self.m_ubo_buffers@.len() == mid_ubos.len(),
                forall|i: int|
                    0 <= i < mid_ubos.len() ==> (#[trigger] self.m_ubo_buffers@[i]).m_name == mid_ubos[i].m_name,
                self.m_ibo_buffers@.len() == ibo_len,
                fresh ==> {
                    let vbo = self.m_vbo_buffers@[vbo_len - 1];
                    &&& vbo_len > 0 && command.m_vbo_index == vbo_len - 1
                    &&& vbo.m_capacity == C_VERTEX_SIZE * tv
                    &&& vbo.m_length == C_VERTEX_SIZE * spec_total_vertices(subs, k as int)
                    &&& vbo.m_count == spec_total_vertices(subs, k as int)
                    &&& vbo.m_old_buffer_id == 0
                    &&& vbo.m_buffer_id == ids.m_new.m_vbo
                },
                fresh && ti > 0 ==> {
                    let ibo = self.m_ibo_buffers@[ibo_len - 1];
                    &&& ibo_len > 0 && command.m_ibo_index == ibo_len - 1
                    &&& ibo.m_capacity == 4 * ti
                    &&& ibo.m_length == 4 * spec_total_indices(subs, k as int)
                    &&& ibo.m_count == spec_total_indices(subs, k as int)
                },
                fresh ==> spec_first_ubo_holds(self.m_ubo_buffers@, "ubo_wireframe"@, n as int)
                    && spec_first_ubo_holds(self.m_ubo_buffers@, "ubo_model"@, n as int),
                joined ==> mid_ubos == old_ubos,
                joined ==> {
                    let vbo = self.m_vbo_buffers@[command.m_vbo_index as int];
                    let left = tv - spec_total_vertices(subs, k as int);
                    &&& command.m_vbo_index < self.m_vbo_buffers@.len()
                    &&& vbo.m_length <= vbo.m_capacity
                    &&& vbo.m_capacity + C_VERTEX_SIZE * left <= C_VBO_SIZE_LIMIT
                    &&& vbo.m_count + left <= usize::MAX
                },
                joined && ti > 0 ==> {
                    let ibo = self.m_ibo_buffers@[command.m_ibo_index as int];
                    let left = ti - spec_total_indices(subs, k as int);
                    &&& command.m_ibo_index < self.m_ibo_buffers@.len()
                    &&& ibo.m_length <= ibo.m_capacity
                    &&& ibo.m_capacity + 4 * left <= C_IBO_SIZE_LIMIT
                    &&& ibo.m_count + left <= usize::MAX
                },
                joined ==> spec_first_ubo_holds(self.m_ubo_buffers@, "ubo_wireframe"@, start.2 + n)
                    && spec_first_ubo_holds(self.m_ubo_buffers@, "ubo_model"@, start.2 + n),
                fresh ==> mid_ubos.len() == old_ubos.len() + 2 && spec_ubo_named(
                    mid_ubos[old_ubos.len() as int],
                    "ubo_model"@,
                ) && spec_ubo_named(mid_ubos[old_ubos.len() + 1int], "ubo_wireframe"@),
            decreases n - k,
        {
            let info = command.m_primitives[k];
            let sub = &entity.m_sub_meshes[k];
            let (grown_vbo, grown_ibo) = ids.m_grown[k];
            proof {
                if fresh {
                    lemma_totals_grow(subs, k as int, k + 1);
                    lemma_totals_grow(subs, k + 1, subs.len() as int);
                    assert(*sub == subs[k as int]);
                    assert(info == spec_planned_primitive(entity.m_renderer_id, counts@, (0, 0, 0), k as int));
                    assert(spec_data_pushable(*self, command.m_vbo_index, command.m_ibo_index, *sub, info.m_base_index));
                    assert(spec_ubo_named(self.m_ubo_buffers@[old_ubos.len() + 1int], "ubo_wireframe"@));
                    assert(spec_ubo_named(self.m_ubo_buffers@[old_ubos.len() as int], "ubo_model"@));
                }
                if joined {
                    lemma_totals_grow(subs, k as int, k + 1);
                    lemma_totals_grow(subs, k + 1, subs.len() as int);
                    lemma_totals_grow(subs, 0, k as int);
                    assert(*sub == subs[k as int]);
                    assert(info == spec_planned_primitive(entity.m_renderer_id, counts@, start, k as int));
                    assert(spec_data_pushable(*self, command.m_vbo_index, command.m_ibo_index, *sub, info.m_base_index));
                    let jw = choose|j: int| spec_first_ubo(old_ubos, "ubo_wireframe"@, j);
                    let jm = choose|j: int| spec_first_ubo(old_ubos, "ubo_model"@, j);
                    assert(self.m_ubo_buffers@[jw].m_name == mid_ubos[jw].m_name);
                    assert(self.m_ubo_buffers@[jm].m_name == mid_ubos[jm].m_name);
                    assert(spec_ubo_named(self.m_ubo_buffers@[jw], "ubo_wireframe"@));
                    assert(spec_ubo_named(self.m_ubo_buffers@[jm], "ubo_model"@));
                }
            }
            if command.m_vao_index >= self.m_vao_buffers.len() || !self.data_pushable(
                command.m_vbo_index,
                command.m_ibo_index,
                sub,
                info.m_base_index,
            ) {
                return Err(EnumOpenGLError::InvalidBufferOperation(EnumGlBufferError::InvalidBufferSize));
            }
            let w = match self.find_ubo("ubo_wireframe") {
                Some(i) => i,
                None => {
                    return Err(EnumOpenGLError::InvalidContext);
                },
            };
            let m = match self.find_ubo("ubo_model") {
                Some(i) => i,
                None => {
                    return Err(EnumOpenGLError::InvalidContext);
                },
            };
            match C_MAT4_SIZE.checked_mul(info.m_entity_offset) {
                None => {
                    return Err(EnumOpenGLError::InvalidBufferOperation(EnumGlBufferError::InvalidBufferOffset));
                },
                Some(_) => {},
            }
            let ghost before = *self;
            proof {
                assert(spec_first_ubo(before.m_ubo_buffers@, "ubo_wireframe"@, w as int));
                assert(spec_first_ubo(before.m_ubo_buffers@, "ubo_model"@, m as int));
            }
            let up = self.push_buffers(
                &info,
                command.m_vao_index,
                command.m_vbo_index,
                command.m_ibo_index,
                sub,
                entity.m_type,
                grown_vbo,
                grown_ibo,
                ids.m_max_vertex_attribs,
            );
            match up {
                Err(e) => {
                    return Err(e);
                },
                Ok(u) => {
                    proof {
                        assert(spec_uploads_of(
                            u,
                            entity.m_sub_meshes@[k as int],
                            command.m_primitives@[k as int],
                            old(self).m_settings.m_batch_mode == EnumRendererOptimizationMode::MinimizeDrawCalls,
                        ));
                        assert forall|i: int| 0 <= i < mid_ubos.len() implies (
                        #[trigger] self.m_ubo_buffers@[i]).m_name == mid_ubos[i].m_name by {
                            assert(before.m_ubo_buffers@[i].m_name == mid_ubos[i].m_name);
                        }
                        if fresh {
                            let a = before.m_ubo_buffers@;
                            let b = self.m_ubo_buffers@;
                            assert forall|i: int| 0 <= i < a.len() implies (#[trigger] a[i]).m_name == b[i].m_name
                                && a[i].m_count == b[i].m_count by {
                                assert(a[i].m_name == mid_ubos[i].m_name);
                            }
                            assert forall|j: int| spec_first_ubo(b, "ubo_wireframe"@, j) implies b[j].m_count + 1
                                >= n by {
                                lemma_first_ubo_kept(a, b, "ubo_wireframe"@, j);
                            }
                            assert forall|j: int| spec_first_ubo(b, "ubo_model"@, j) implies b[j].m_count + 1 >= n by {
                                lemma_first_ubo_kept(a, b, "ubo_model"@, j);
                            }
                        }
                        if joined {
                            let a = before.m_ubo_buffers@;
                            let b = self.m_ubo_buffers@;
                            assert forall|i: int| 0 <= i < a.len() implies (#[trigger] a[i]).m_name == b[i].m_name
                                && a[i].m_count == b[i].m_count by {
                                assert(a[i].m_name == mid_ubos[i].m_name);
                            }
                            assert forall|j: int| spec_first_ubo(b, "ubo_wireframe"@, j) implies b[j].m_count + 1
                                >= start.2 + n by {
                                lemma_first_ubo_kept(a, b, "ubo_wireframe"@, j);
                            }
                            assert forall|j: int| spec_first_ubo(b, "ubo_model"@, j) implies b[j].m_count + 1
                                >= start.2 + n by {
                                lemma_first_ubo_kept(a, b, "ubo_model"@, j);
                            }
                        }
                    }
                    uploads.push(u);
                },
            }
            k = k + 1;
        }
        let kept = GlDrawCommandInfo {
            m_linked_shader: command.m_linked_shader,
            m_vao_index: command.m_vao_index,
            m_vbo_index: command.m_vbo_index,
            m_ibo_index: command.m_ibo_index,
            m_primitives: command.m_primitives.clone(),
        };
        let data = self.push_command(command);
        proof {
            let now = self.m_ubo_buffers@;
            if spec_has_camera(now) {
                let i = choose|i: int| 0 <= i < now.len() && spec_ubo_named(#[trigger] now[i], "ubo_camera"@);
                assert(now[i].m_name == mid_ubos[i].m_name);
                assert(spec_ubo_named(mid_ubos[i], "ubo_camera"@));
            }
            if spec_has_camera(mid_ubos) {
                let i = choose|i: int|
                    0 <= i < mid_ubos.len() && spec_ubo_named(#[trigger] mid_ubos[i], "ubo_camera"@);
                assert(now[i].m_name == mid_ubos[i].m_name);
                assert(spec_ubo_named(now[i], "ubo_camera"@));
            }
        }
        let camera = match self.find_ubo("ubo_camera") {
            Some(_) => None,
            None => {
                let mut ubo = GlUbo::new(Some("ubo_camera"), EnumUboTypeSize::ViewProjection, ids.m_camera_ubo);
                let bind = shader.m_version < 420;
                if bind {
                    match ubo.bind_block(0, ids.m_blocks.m_max_bindings, ids.m_blocks.m_active_blocks, ids.m_camera_index) {
                        Err(e) => {
                            return Err(e);
                        },
                        Ok(_) => {},
                    }
                }
                self.m_ubo_buffers.push(ubo);
                Some(bind)
            },
        };
        Ok(GlEnqueuePlan { m_alloc: alloc, m_command: kept, m_uploads: uploads, m_command_data: data, m_camera: camera })
    }
}

impl GlContext {
    /// Whether `entity` can be queued with shader `shader_id` here without an
    /// overflow (see `spec_enqueue_fits`).
    #[verifier::loop_isolation(false)]
    pub fn enqueue_fits(&self, entity: &REntity, shader_id: u32) -> (r: bool)
        ensures
            r == spec_enqueue_fits(*self, *entity, shader_id),
    {
        let subs = &entity.m_sub_meshes;
        let (tv, ti) = sub_totals(subs);
        if tv > 0xffff_ffff_ffff_ffff_ffff_ffff_ffff_ffff / 36 || ti > 0xffff_ffff_ffff_ffff_ffff_ffff_ffff_ffff
            / 4 {
            return false;
        }
        if 36 * tv > usize::MAX as u128 || 4 * ti > usize::MAX as u128 {
            return false;
        }
        if self.m_commands.find_shader(shader_id).is_some() && (self.m_vao_buffers.len() == 0
            || self.m_vbo_buffers.len() == 0) {
            return false;
        }
        let counts = sub_mesh_counts(subs);
        let sums = count_sums(&counts);
        let n = counts.len();
        let empty: Vec<GlPrimitiveInfo> = Vec::new();
        proof {
            assert(spec_join_start(empty@) == (0int, 0int, 0int));
        }
        if !join_fits(&empty, 0, sums, n) {
            proof {
                assert(empty@ =~= Seq::<GlPrimitiveInfo>::empty());
            }
            return false;
        }
        let cs = &self.m_commands.m_draw_commands;
        let mut j: usize = 0;
        while j < cs.len()
            invariant
                0 <= j <= cs@.len(),
                forall|m: int|
                    0 <= m < j ==> spec_primitives_wf((#[trigger] cs@[m]).m_primitives@)
                        && spec_join_fits_with(cs@[m].m_primitives@, sums.0 as int, sums.1 as int, n as int),
            decreases cs@.len() - j,
        {
            match primitives_vertices(&cs[j].m_primitives) {
                None => {
                    return false;
                },
                Some(base) => {
                    proof {
                        lemma_primitive_vertices_nonneg_all(cs@[j as int].m_primitives@);
                    }
                    if !join_fits(&cs[j].m_primitives, base, sums, n) {
                        return false;
                    }
                },
            }
            j = j + 1;
        }
        true
    }
}

} // verus!
