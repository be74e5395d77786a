use wave_engine::assets::r_assets::{EnumMaterial, EnumPrimitive, MeshData, REntity, Vec2Bits, Vec3Bits};
use wave_engine::graphics::buffer::{EnumBufferState, EnumUboSource, GlUboWrite};
use wave_engine::graphics::gl_context::{GlBlockQuery, GlContext, GlDrawCommandInfo, GlNewBufferIds};
use wave_engine::graphics::gl_enqueue::{sub_mesh_counts, GlEnqueueIds};
use wave_engine::graphics::renderer::{EnumGlBufferError, EnumOpenGLError, EnumRendererError, Renderer};
use wave_engine::graphics::shader::Shader;

fn mesh(n: usize, faces: Vec<[u32; 3]>) -> MeshData {
    MeshData {
        m_name: "part".to_string(),
        m_num_vertices: n,
        m_positions: (0..n).map(|i| Vec3Bits { x: (i as f32).to_bits(), y: 0, z: 0 }).collect(),
        m_normals: vec![],
        m_texture_coords: vec![Vec2Bits { x: 0, y: 0 }],
        m_faces: faces,
    }
}

fn entity(uuid: u64) -> REntity {
    let meshes = vec![mesh(3, vec![[0, 1, 2]]), mesh(4, vec![[0, 1, 2], [1, 2, 3]])];
    let mut e = REntity::new(&meshes, true, EnumPrimitive::Mesh(EnumMaterial::Smooth), "robot", 1).0;
    e.m_renderer_id = uuid;
    e
}

fn ids() -> GlEnqueueIds {
    GlEnqueueIds {
        m_new: GlNewBufferIds { m_vao: 1, m_vbo: 2, m_ibo: 3, m_model_ubo: 4, m_wireframe_ubo: 5 },
        m_blocks: GlBlockQuery { m_max_bindings: 36, m_active_blocks: 10, m_model_index: 0, m_wireframe_index: 1 },
        m_camera_ubo: 6,
        m_camera_index: 2,
        m_grown: vec![(20, 21), (22, 23)],
        m_max_vertex_attribs: 16,
    }
}

fn shader(version: u16) -> Shader {
    let mut s = Shader::default();
    s.m_program_id = 9;
    s.m_version = version;
    s
}

fn slot_writes(offset: usize) -> Vec<GlUboWrite> {
    vec![
        GlUboWrite { m_offset: 16 * offset, m_size: 4, m_source: EnumUboSource::Integer(0) },
        GlUboWrite { m_offset: 64 * offset, m_size: 64, m_source: EnumUboSource::Matrix(0) },
    ]
}

#[test]
fn sub_mesh_counts_of_an_entity() {
    assert_eq!(sub_mesh_counts(&entity(1).m_sub_meshes), vec![(3, 3), (4, 6)]);
}

#[test]
fn first_entity_creates_buffers_command_and_camera() {
    let mut ctx = GlContext::new();
    let plan = ctx.enqueue(&entity(1), &shader(460), &ids()).unwrap();
    assert!(plan.m_alloc.is_some());
    assert_eq!(plan.m_command.m_linked_shader, 9);
    let offsets: Vec<usize> = plan.m_command.m_primitives.iter().map(|p| p.m_entity_offset).collect();
    assert_eq!(offsets, vec![0, 1]);
    assert_eq!(plan.m_command.m_primitives[1].m_base_vertex, 3);
    assert_eq!(plan.m_command.m_primitives[1].m_ibo_offset, 12);
    assert_eq!(plan.m_uploads.len(), 2);
    assert_eq!(plan.m_uploads[0].m_ubo_writes, slot_writes(0));
    assert_eq!(plan.m_uploads[1].m_ubo_writes, slot_writes(1));
    let data = &plan.m_uploads[1].m_data;
    assert_eq!((data.m_vertex_write.m_offset, data.m_vertex_write.m_size, data.m_vertex_write.m_count), (108, 144, 4));
    let index_write = data.m_index_write.unwrap();
    assert_eq!((index_write.m_offset, index_write.m_size, index_write.m_count), (12, 24, 6));
    // The first vertex is the base index: the indices are stored as they are.
    assert_eq!(data.m_indices, entity(1).m_sub_meshes[1].m_indices);
    // A fresh vertex buffer has not been bound yet: the layout is enabled again.
    assert!(plan.m_uploads[0].m_pointers.is_some());
    assert_eq!(ctx.m_commands.m_draw_commands.len(), 1);
    assert_eq!(ctx.m_vbo_buffers[0].m_length, 36 * 7);
    assert_eq!(ctx.m_ibo_buffers[0].m_length, 4 * 9);
    // The camera block comes last, created but not bound for GLSL 4.6.
    assert_eq!(plan.m_camera, Some(false));
    assert_eq!(ctx.m_ubo_buffers.len(), 3);
    let camera = ctx.m_ubo_buffers[2];
    assert_eq!(camera.m_name, Some("ubo_camera"));
    assert_eq!((camera.m_buffer_id, camera.m_capacity, camera.m_count), (6, 128, 2));
    assert_eq!(camera.m_state, EnumBufferState::Created);
}

#[test]
fn camera_block_is_bound_for_old_glsl() {
    let mut ctx = GlContext::new();
    let plan = ctx.enqueue(&entity(1), &shader(410), &ids()).unwrap();
    assert_eq!(plan.m_camera, Some(true));
    assert_eq!(ctx.m_ubo_buffers[2].m_state, EnumBufferState::Bound);
}

#[test]
fn second_entity_joins_the_shader_command() {
    let mut ctx = GlContext::new();
    ctx.enqueue(&entity(1), &shader(460), &ids()).unwrap();
    let plan = ctx.enqueue(&entity(5), &shader(460), &ids()).unwrap();
    assert!(plan.m_alloc.is_none());
    assert_eq!(plan.m_camera, None);
    let offsets: Vec<usize> = plan.m_command.m_primitives.iter().map(|p| p.m_entity_offset).collect();
    assert_eq!(offsets, vec![2, 3]);
    assert_eq!(plan.m_uploads[1].m_ubo_writes, slot_writes(3));
    assert_eq!(ctx.m_commands.m_draw_commands.len(), 1);
    assert_eq!(ctx.m_commands.m_draw_commands[0].m_primitives.len(), 4);
    assert_eq!(ctx.m_ubo_buffers.len(), 3);
    assert_eq!(ctx.m_vbo_buffers.len(), 1);
    assert_eq!(ctx.m_vbo_buffers[0].m_length, 2 * 36 * 7);
}

#[test]
fn entity_without_vertices_is_refused() {
    let mut ctx = GlContext::new();
    let mut e = entity(1);
    e.m_sub_meshes = vec![];
    let mut i = ids();
    i.m_grown = vec![];
    let r = ctx.enqueue(&e, &shader(460), &i);
    assert_eq!(r.err(), Some(EnumOpenGLError::InvalidBufferOperation(EnumGlBufferError::InvalidBufferSize)));
    assert!(ctx.m_commands.m_draw_commands.is_empty());
    assert!(ctx.m_ubo_buffers.is_empty());
}

#[test]
fn renderer_enqueue_gives_ids_then_queues() {
    let mut r = Renderer::default();
    let mut ctx = GlContext::new();
    let mut a = entity(77);
    let mut b = entity(77);
    assert!(r.enqueue(&mut ctx, &mut a, &shader(460), &ids()).is_ok());
    assert!(r.enqueue(&mut ctx, &mut b, &shader(460), &ids()).is_ok());
    assert_eq!((a.get_uuid(), b.get_uuid()), (0, 1));
    assert_eq!(r.m_ids, vec![0, 1]);
    let uuids: Vec<u64> = ctx.m_commands.m_draw_commands[0].m_primitives.iter().map(|p| p.m_uuid).collect();
    assert_eq!(uuids, vec![0, 0, 1, 1]);
    // An entity the context refuses keeps its identifier.
    let mut c = entity(77);
    c.m_sub_meshes = vec![];
    let mut i = ids();
    i.m_grown = vec![];
    let mut fresh = GlContext::new();
    assert_eq!(
        r.enqueue(&mut fresh, &mut c, &shader(460), &i).err(),
        Some(EnumRendererError::OpenGLError(EnumOpenGLError::InvalidBufferOperation(
            EnumGlBufferError::InvalidBufferSize
        )))
    );
    assert_eq!(c.get_uuid(), 2);
    assert_eq!(r.m_ids, vec![0, 1, 2]);
}

#[test]
fn enqueue_fits_checks_the_layout_bounds() {
    let mut ctx = GlContext::new();
    assert!(ctx.enqueue_fits(&entity(1), 9));
    // A shader with a command but no buffers to lay the entity out in.
    ctx.m_commands.m_draw_commands.push(GlDrawCommandInfo {
        m_linked_shader: 9,
        m_vao_index: 0,
        m_vbo_index: 0,
        m_ibo_index: 0,
        m_primitives: vec![],
    });
    assert!(!ctx.enqueue_fits(&entity(1), 9));
    assert!(ctx.enqueue_fits(&entity(1), 4));
}

#[test]
fn extensions_are_kept_once() {
    let mut ctx = GlContext::new();
    ctx.set_extensions(vec!["GL_KHR_debug".to_string(), "GL_ARB_gl_spirv".to_string(), "GL_KHR_debug".to_string()]);
    assert_eq!(ctx.m_extensions, vec!["GL_KHR_debug".to_string(), "GL_ARB_gl_spirv".to_string()]);
    assert!(ctx.check_extension("GL_ARB_gl_spirv"));
}
