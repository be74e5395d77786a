use wave_engine::assets::r_assets::{EnumMaterial, EnumPrimitive, MeshData, REntity, Vec2Bits, Vec3Bits};
use wave_engine::graphics::buffer::{
    EnumBufferState, EnumUboSource, GlAttributePointer, GlIbo, GlUboWrite, GlVao, GlVbo,
};
use wave_engine::graphics::gl_context::{
    GlBlockQuery, GlContext, GlNewBufferIds, GlPrimitiveInfo,
};
use wave_engine::graphics::gl_enums::{GL_ARRAY_BUFFER, GL_FLOAT, GL_INT, GL_INVALID_INDEX, GL_UNSIGNED_INT};
use wave_engine::graphics::renderer::{EnumGlBufferError, EnumOpenGLError, EnumRendererOptimizationMode};
use wave_engine::graphics::shader::{EnumShaderLanguageType, Shader};

fn mesh(n: usize, faces: Vec<[u32; 3]>) -> MeshData {
    MeshData {
        m_name: "part".to_string(),
        m_num_vertices: n,
        m_positions: (0..n).map(|i| Vec3Bits { x: (i as f32).to_bits(), y: 0, z: 0 }).collect(),
        m_normals: vec![],
        m_texture_coords: vec![Vec2Bits { x: 0, y: 0 }],
        m_faces: faces,
    }
}

fn entity(material: EnumMaterial, indexed: bool) -> REntity {
    let meshes = vec![mesh(3, vec![[0, 1, 2]]), mesh(4, vec![[0, 1, 2], [1, 2, 3]])];
    REntity::new(&meshes, indexed, EnumPrimitive::Mesh(material), "robot", 1).0
}

fn ids() -> GlNewBufferIds {
    GlNewBufferIds { m_vao: 1, m_vbo: 2, m_ibo: 3, m_model_ubo: 4, m_wireframe_ubo: 5 }
}

fn blocks() -> GlBlockQuery {
    GlBlockQuery { m_max_bindings: 36, m_active_blocks: 10, m_model_index: 0, m_wireframe_index: 1 }
}

fn pointer(index: u32, count: i32, ty: u32, offset: usize, integer: bool) -> GlAttributePointer {
    GlAttributePointer {
        m_index: index,
        m_count: count,
        m_gl_type: ty,
        m_normalized: 0,
        m_stride: 36,
        m_offset: offset,
        m_integer: integer,
    }
}

fn mesh_pointers() -> Vec<GlAttributePointer> {
    vec![
        pointer(0, 1, GL_UNSIGNED_INT, 0, true),
        pointer(1, 1, GL_INT, 4, true),
        pointer(2, 3, GL_FLOAT, 8, false),
        pointer(3, 1, GL_UNSIGNED_INT, 20, true),
        pointer(4, 1, GL_UNSIGNED_INT, 24, true),
        pointer(5, 2, GL_FLOAT, 28, false),
    ]
}

#[test]
fn mesh_layout_is_enabled_on_the_vertex_array() {
    let mut vao = GlVao::new(7);
    let calls = GlContext::set_attributes(EnumPrimitive::Mesh(EnumMaterial::Smooth), &mut vao, 16).unwrap();
    assert_eq!(calls, mesh_pointers());
    assert_eq!(vao.m_state, EnumBufferState::Bound);
    assert_eq!(vao.m_buffer_id, 7);
}

#[test]
fn flat_normals_need_a_divisor() {
    let mut vao = GlVao::new(7);
    let r = GlContext::set_attributes(EnumPrimitive::Mesh(EnumMaterial::Flat), &mut vao, 0);
    assert_eq!(r, Err(EnumOpenGLError::InvalidBufferOperation(EnumGlBufferError::InvalidAttributeDivisor)));
    assert_eq!(vao, GlVao::new(7));
    let mut vao = GlVao::new(7);
    let r = GlContext::set_attributes(EnumPrimitive::Mesh(EnumMaterial::Smooth), &mut vao, 4);
    assert_eq!(r, Err(EnumOpenGLError::InvalidBufferOperation(EnumGlBufferError::InvalidVertexAttribute)));
}

#[test]
fn alloc_buffers_creates_the_entity_buffers() {
    let mut ctx = GlContext::new();
    let e = entity(EnumMaterial::Smooth, true);
    let mut shader = Shader::default();
    shader.m_version = 460;
    let (calls, bound) = ctx.alloc_buffers(&e, &shader, ids(), blocks(), 16).unwrap();
    assert_eq!(calls, mesh_pointers());
    assert!(!bound);
    assert_eq!(ctx.m_vao_buffers, vec![GlVao { m_state: EnumBufferState::Bound, m_buffer_id: 1 }]);
    assert_eq!(
        ctx.m_vbo_buffers,
        vec![GlVbo {
            m_buffer_id: 2,
            m_capacity: 36 * 7,
            m_length: 0,
            m_count: 0,
            m_type: GL_ARRAY_BUFFER,
            m_state: EnumBufferState::Created,
            m_old_buffer_id: 0,
        }]
    );
    assert_eq!(
        ctx.m_ibo_buffers,
        vec![GlIbo { m_buffer_id: 3, m_capacity: 4 * 9, m_length: 0, m_count: 0, m_state: EnumBufferState::Created }]
    );
    assert_eq!(ctx.m_ubo_buffers.len(), 2);
    assert_eq!(ctx.m_ubo_buffers[0].m_name, Some("ubo_model"));
    assert_eq!(ctx.m_ubo_buffers[0].m_count, 255);
    assert_eq!(ctx.m_ubo_buffers[0].m_capacity, 64 * 255);
    assert_eq!(ctx.m_ubo_buffers[0].m_state, EnumBufferState::Created);
    assert_eq!(ctx.m_ubo_buffers[1].m_name, Some("ubo_wireframe"));
    assert_eq!(ctx.m_ubo_buffers[1].m_capacity, 16 * 255);
    assert_eq!(ctx.m_ubo_buffers[1].m_buffer_id, 5);
}

#[test]
fn alloc_buffers_binds_blocks_for_old_glsl() {
    let mut ctx = GlContext::new();
    let e = entity(EnumMaterial::Smooth, false);
    let shader = Shader::default();
    assert_eq!(shader.m_version, 420);
    let mut old = Shader::default();
    old.m_version = 410;
    let (_, bound) = ctx.alloc_buffers(&e, &old, ids(), blocks(), 16).unwrap();
    assert!(bound);
    assert!(ctx.m_ibo_buffers.is_empty());
    assert_eq!(ctx.m_ubo_buffers[0].m_state, EnumBufferState::Bound);
    assert_eq!(ctx.m_ubo_buffers[1].m_state, EnumBufferState::Bound);

    let mut spirv = Shader::default();
    spirv.m_version = 410;
    spirv.m_shader_lang = EnumShaderLanguageType::SpirV;
    let mut ctx = GlContext::new();
    let (_, bound) = ctx.alloc_buffers(&e, &spirv, ids(), blocks(), 16).unwrap();
    assert!(!bound);
}

#[test]
fn alloc_buffers_refusals() {
    let e = entity(EnumMaterial::Smooth, true);
    let mut old = Shader::default();
    old.m_version = 330;
    let bad = GlBlockQuery { m_wireframe_index: GL_INVALID_INDEX, ..blocks() };
    let mut ctx = GlContext::new();
    let r = ctx.alloc_buffers(&e, &old, ids(), bad, 16);
    assert_eq!(r, Err(EnumOpenGLError::InvalidBufferOperation(EnumGlBufferError::InvalidBlockBinding)));
    // The index buffer stays, the others are not kept.
    assert_eq!(ctx.m_ibo_buffers.len(), 1);
    assert!(ctx.m_vao_buffers.is_empty() && ctx.m_vbo_buffers.is_empty() && ctx.m_ubo_buffers.is_empty());

    let few = GlBlockQuery { m_max_bindings: 4, ..blocks() };
    let mut ctx = GlContext::new();
    assert!(ctx.alloc_buffers(&e, &old, ids(), few, 16).is_err());

    let empty = REntity::new(&vec![], true, EnumPrimitive::Mesh(EnumMaterial::Smooth), "none", 1).0;
    let mut ctx = GlContext::new();
    let r = ctx.alloc_buffers(&empty, &Shader::default(), ids(), blocks(), 16);
    assert_eq!(r, Err(EnumOpenGLError::InvalidBufferOperation(EnumGlBufferError::InvalidBufferSize)));
    assert!(ctx.m_ibo_buffers.is_empty());

    let mut ctx = GlContext::new();
    let r = ctx.alloc_buffers(&entity(EnumMaterial::Flat, true), &Shader::default(), ids(), blocks(), 0);
    assert_eq!(r, Err(EnumOpenGLError::InvalidBufferOperation(EnumGlBufferError::InvalidAttributeDivisor)));
}

fn info(base_index: i32, offset: usize) -> GlPrimitiveInfo {
    GlPrimitiveInfo {
        m_uuid: 0,
        m_ibo_offset: 0,
        m_vbo_count: 0,
        m_ibo_count: 0,
        m_base_vertex: 0,
        m_base_index: base_index,
        m_entity_offset: offset,
        m_visible: true,
    }
}

fn allocated(mode: EnumRendererOptimizationMode) -> (GlContext, REntity) {
    let mut ctx = GlContext::new();
    ctx.m_settings.m_batch_mode = mode;
    let e = entity(EnumMaterial::Smooth, true);
    let mut shader = Shader::default();
    shader.m_version = 460;
    ctx.alloc_buffers(&e, &shader, ids(), blocks(), 16).unwrap();
    (ctx, e)
}

#[test]
fn push_data_shifts_indices_when_batching() {
    let (mut ctx, e) = allocated(EnumRendererOptimizationMode::MinimizeDrawCalls);
    let second = &e.m_sub_meshes[1];
    let w = ctx.push_data(&info(3, 1), 0, 0, second, 20, 30).unwrap();
    assert_eq!(w.m_indices, second.m_indices.iter().map(|i| i + 3).collect::<Vec<u32>>());
    let iw = w.m_index_write.unwrap();
    assert_eq!((iw.m_offset, iw.m_size, iw.m_count, iw.m_expand_by), (0, 24, 6, 0));
    assert_eq!((w.m_vertex_write.m_offset, w.m_vertex_write.m_size, w.m_vertex_write.m_expand_by), (0, 144, 0));
    assert_eq!(ctx.m_vbo_buffers[0].m_length, 144);
    assert_eq!(ctx.m_vbo_buffers[0].m_count, 4);
    assert_eq!(ctx.m_vbo_buffers[0].m_buffer_id, 2);
    assert_eq!(ctx.m_ibo_buffers[0].m_length, 24);
    assert_eq!(ctx.m_ibo_buffers[0].m_state, EnumBufferState::Bound);
}

#[test]
fn push_data_keeps_indices_otherwise_and_grows() {
    let (mut ctx, e) = allocated(EnumRendererOptimizationMode::NoOptimizations);
    let first = &e.m_sub_meshes[0];
    let second = &e.m_sub_meshes[1];
    let w = ctx.push_data(&info(3, 1), 0, 0, second, 20, 30).unwrap();
    assert_eq!(w.m_indices, second.m_indices);
    ctx.push_data(&info(0, 0), 0, 0, first, 20, 30).unwrap();
    // 7 vertices fill the buffer; one more primitive makes it grow.
    let w = ctx.push_data(&info(0, 0), 0, 0, first, 20, 30).unwrap();
    assert_eq!(w.m_vertex_write.m_expand_by, 108);
    assert_eq!(ctx.m_vbo_buffers[0].m_buffer_id, 20);
    assert_eq!(ctx.m_vbo_buffers[0].m_old_buffer_id, 2);
    assert_eq!(ctx.m_vbo_buffers[0].m_capacity, 36 * 7 + 108);
    assert_eq!(ctx.m_ibo_buffers[0].m_buffer_id, 30);
}

#[test]
fn push_buffers_writes_flags_and_matrix() {
    let (mut ctx, e) = allocated(EnumRendererOptimizationMode::NoOptimizations);
    let first = &e.m_sub_meshes[0];
    let u = ctx
        .push_buffers(&info(0, 2), 0, 0, 0, first, EnumPrimitive::Mesh(EnumMaterial::Smooth), 20, 30, 16)
        .unwrap();
    // A new buffer counts as moved from buffer 0: the layout is enabled again.
    assert_eq!(u.m_pointers, Some(mesh_pointers()));
    assert_eq!(
        u.m_ubo_writes,
        vec![
            GlUboWrite { m_offset: 32, m_size: 4, m_source: EnumUboSource::Integer(0) },
            GlUboWrite { m_offset: 128, m_size: 64, m_source: EnumUboSource::Matrix(0) },
        ]
    );
    assert_eq!(ctx.m_ubo_buffers[0].m_state, EnumBufferState::Bound);
    assert_eq!(ctx.m_ubo_buffers[1].m_state, EnumBufferState::Bound);

    let r = ctx.push_buffers(&info(0, 300), 0, 0, 0, first, EnumPrimitive::Mesh(EnumMaterial::Smooth), 20, 30, 16);
    assert_eq!(r.err(), Some(EnumOpenGLError::InvalidBufferOperation(EnumGlBufferError::InvalidBufferOffset)));
}
