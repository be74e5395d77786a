use wave_engine::graphics::buffer::{
    EnumAttributeType, EnumBufferState, EnumUboSource, EnumUboType, EnumUboTypeSize, GlAttributePointer,
    GlBufferWrite, GlIbo, GlUbo, GlUboWrite, GlVao, GlVbo, GlVertexAttribute, C_IBO_SIZE_LIMIT, C_MAT4_SIZE,
    C_VBO_SIZE_LIMIT,
};
use wave_engine::graphics::gl_enums;
use wave_engine::graphics::renderer::{EnumGlBufferError, EnumOpenGLError};

fn buf_err(e: EnumGlBufferError) -> EnumOpenGLError {
    EnumOpenGLError::InvalidBufferOperation(e)
}

#[test]
fn gl_enum_values_match_the_gl_crate() {
    assert_eq!(gl_enums::GL_NO_ERROR as u64, gl::NO_ERROR as u64);
    assert_eq!(gl_enums::GL_FALSE as u64, gl::FALSE as u64);
    assert_eq!(gl_enums::GL_TRUE as u64, gl::TRUE as u64);
    assert_eq!(gl_enums::GL_INVALID_INDEX as u64, gl::INVALID_INDEX as u64);
    assert_eq!(gl_enums::GL_BYTE as u64, gl::BYTE as u64);
    assert_eq!(gl_enums::GL_UNSIGNED_BYTE as u64, gl::UNSIGNED_BYTE as u64);
    assert_eq!(gl_enums::GL_SHORT as u64, gl::SHORT as u64);
    assert_eq!(gl_enums::GL_UNSIGNED_SHORT as u64, gl::UNSIGNED_SHORT as u64);
    assert_eq!(gl_enums::GL_INT as u64, gl::INT as u64);
    assert_eq!(gl_enums::GL_UNSIGNED_INT as u64, gl::UNSIGNED_INT as u64);
    assert_eq!(gl_enums::GL_FLOAT as u64, gl::FLOAT as u64);
    assert_eq!(gl_enums::GL_DOUBLE as u64, gl::DOUBLE as u64);
    assert_eq!(gl_enums::GL_ARRAY_BUFFER as u64, gl::ARRAY_BUFFER as u64);
    assert_eq!(gl_enums::GL_ELEMENT_ARRAY_BUFFER as u64, gl::ELEMENT_ARRAY_BUFFER as u64);
    assert_eq!(gl_enums::GL_UNIFORM_BUFFER as u64, gl::UNIFORM_BUFFER as u64);
    assert_eq!(gl_enums::GL_DRAW_INDIRECT_BUFFER as u64, gl::DRAW_INDIRECT_BUFFER as u64);
    assert_eq!(gl_enums::GL_CULL_FACE as u64, gl::CULL_FACE as u64);
    assert_eq!(gl_enums::GL_DEPTH_TEST as u64, gl::DEPTH_TEST as u64);
    assert_eq!(gl_enums::GL_BLEND as u64, gl::BLEND as u64);
    assert_eq!(gl_enums::GL_MULTISAMPLE as u64, gl::MULTISAMPLE as u64);
    assert_eq!(gl_enums::GL_DEBUG_OUTPUT_SYNCHRONOUS as u64, gl::DEBUG_OUTPUT_SYNCHRONOUS as u64);
    assert_eq!(gl_enums::GL_FRAMEBUFFER_SRGB as u64, gl::FRAMEBUFFER_SRGB as u64);
    assert_eq!(gl_enums::GL_DEBUG_OUTPUT as u64, gl::DEBUG_OUTPUT as u64);
    assert_eq!(gl_enums::GL_FRONT as u64, gl::FRONT as u64);
    assert_eq!(gl_enums::GL_BACK as u64, gl::BACK as u64);
    assert_eq!(gl_enums::GL_FRONT_AND_BACK as u64, gl::FRONT_AND_BACK as u64);
    assert_eq!(gl_enums::GL_POINT as u64, gl::POINT as u64);
    assert_eq!(gl_enums::GL_LINE as u64, gl::LINE as u64);
    assert_eq!(gl_enums::GL_FILL as u64, gl::FILL as u64);
    assert_eq!(gl_enums::GL_ZERO as u64, gl::ZERO as u64);
    assert_eq!(gl_enums::GL_ONE as u64, gl::ONE as u64);
    assert_eq!(gl_enums::GL_SRC_COLOR as u64, gl::SRC_COLOR as u64);
    assert_eq!(gl_enums::GL_ONE_MINUS_SRC_COLOR as u64, gl::ONE_MINUS_SRC_COLOR as u64);
    assert_eq!(gl_enums::GL_SRC_ALPHA as u64, gl::SRC_ALPHA as u64);
    assert_eq!(gl_enums::GL_ONE_MINUS_SRC_ALPHA as u64, gl::ONE_MINUS_SRC_ALPHA as u64);
    assert_eq!(gl_enums::GL_DST_ALPHA as u64, gl::DST_ALPHA as u64);
    assert_eq!(gl_enums::GL_ONE_MINUS_DST_ALPHA as u64, gl::ONE_MINUS_DST_ALPHA as u64);
    assert_eq!(gl_enums::GL_DST_COLOR as u64, gl::DST_COLOR as u64);
    assert_eq!(gl_enums::GL_ONE_MINUS_DST_COLOR as u64, gl::ONE_MINUS_DST_COLOR as u64);
    assert_eq!(gl_enums::GL_CONSTANT_COLOR as u64, gl::CONSTANT_COLOR as u64);
    assert_eq!(gl_enums::GL_ONE_MINUS_CONSTANT_COLOR as u64, gl::ONE_MINUS_CONSTANT_COLOR as u64);
    assert_eq!(gl_enums::GL_CONSTANT_ALPHA as u64, gl::CONSTANT_ALPHA as u64);
    assert_eq!(gl_enums::GL_ONE_MINUS_CONSTANT_ALPHA as u64, gl::ONE_MINUS_CONSTANT_ALPHA as u64);
    assert_eq!(gl_enums::GL_POINTS as u64, gl::POINTS as u64);
    assert_eq!(gl_enums::GL_LINES as u64, gl::LINES as u64);
    assert_eq!(gl_enums::GL_LINE_LOOP as u64, gl::LINE_LOOP as u64);
    assert_eq!(gl_enums::GL_LINE_STRIP as u64, gl::LINE_STRIP as u64);
    assert_eq!(gl_enums::GL_TRIANGLES as u64, gl::TRIANGLES as u64);
    assert_eq!(gl_enums::GL_TRIANGLE_STRIP as u64, gl::TRIANGLE_STRIP as u64);
    assert_eq!(gl_enums::GL_TRIANGLE_FAN as u64, gl::TRIANGLE_FAN as u64);
    assert_eq!(gl_enums::GL_LINES_ADJACENCY as u64, gl::LINES_ADJACENCY as u64);
    assert_eq!(gl_enums::GL_LINE_STRIP_ADJACENCY as u64, gl::LINE_STRIP_ADJACENCY as u64);
    assert_eq!(gl_enums::GL_TRIANGLES_ADJACENCY as u64, gl::TRIANGLES_ADJACENCY as u64);
    assert_eq!(gl_enums::GL_TRIANGLE_STRIP_ADJACENCY as u64, gl::TRIANGLE_STRIP_ADJACENCY as u64);
    assert_eq!(gl_enums::GL_DEBUG_TYPE_ERROR as u64, gl::DEBUG_TYPE_ERROR as u64);
    assert_eq!(gl_enums::GL_DEBUG_TYPE_DEPRECATED_BEHAVIOR as u64, gl::DEBUG_TYPE_DEPRECATED_BEHAVIOR as u64);
    assert_eq!(gl_enums::GL_DEBUG_TYPE_UNDEFINED_BEHAVIOR as u64, gl::DEBUG_TYPE_UNDEFINED_BEHAVIOR as u64);
    assert_eq!(gl_enums::GL_DEBUG_TYPE_PORTABILITY as u64, gl::DEBUG_TYPE_PORTABILITY as u64);
    assert_eq!(gl_enums::GL_DEBUG_TYPE_PERFORMANCE as u64, gl::DEBUG_TYPE_PERFORMANCE as u64);
    assert_eq!(gl_enums::GL_DEBUG_TYPE_OTHER as u64, gl::DEBUG_TYPE_OTHER as u64);
    assert_eq!(gl_enums::GL_DEBUG_TYPE_MARKER as u64, gl::DEBUG_TYPE_MARKER as u64);
    assert_eq!(gl_enums::GL_DEBUG_TYPE_PUSH_GROUP as u64, gl::DEBUG_TYPE_PUSH_GROUP as u64);
    assert_eq!(gl_enums::GL_DEBUG_TYPE_POP_GROUP as u64, gl::DEBUG_TYPE_POP_GROUP as u64);
    assert_eq!(gl_enums::GL_DEBUG_SEVERITY_NOTIFICATION as u64, gl::DEBUG_SEVERITY_NOTIFICATION as u64);
    assert_eq!(gl_enums::GL_DEBUG_SEVERITY_HIGH as u64, gl::DEBUG_SEVERITY_HIGH as u64);
    assert_eq!(gl_enums::GL_DEBUG_SEVERITY_MEDIUM as u64, gl::DEBUG_SEVERITY_MEDIUM as u64);
    assert_eq!(gl_enums::GL_DEBUG_SEVERITY_LOW as u64, gl::DEBUG_SEVERITY_LOW as u64);
    assert_eq!(gl_enums::GL_TEXTURE_1D as u64, gl::TEXTURE_1D as u64);
    assert_eq!(gl_enums::GL_TEXTURE_2D as u64, gl::TEXTURE_2D as u64);
    assert_eq!(gl_enums::GL_TEXTURE_3D as u64, gl::TEXTURE_3D as u64);
    assert_eq!(gl_enums::GL_RED as u64, gl::RED as u64);
    assert_eq!(gl_enums::GL_RGB as u64, gl::RGB as u64);
    assert_eq!(gl_enums::GL_RGBA as u64, gl::RGBA as u64);
    assert_eq!(gl_enums::GL_BGR as u64, gl::BGR as u64);
    assert_eq!(gl_enums::GL_BGRA as u64, gl::BGRA as u64);
    assert_eq!(gl_enums::GL_RG as u64, gl::RG as u64);
    assert_eq!(gl_enums::GL_TEXTURE_RECTANGLE as u64, gl::TEXTURE_RECTANGLE as u64);
    assert_eq!(gl_enums::GL_PROXY_TEXTURE_RECTANGLE as u64, gl::PROXY_TEXTURE_RECTANGLE as u64);
    assert_eq!(gl_enums::GL_TEXTURE_CUBE_MAP as u64, gl::TEXTURE_CUBE_MAP as u64);
    assert_eq!(gl_enums::GL_PROXY_TEXTURE_CUBE_MAP as u64, gl::PROXY_TEXTURE_CUBE_MAP as u64);
    assert_eq!(gl_enums::GL_PROXY_TEXTURE_2D as u64, gl::PROXY_TEXTURE_2D as u64);
    assert_eq!(gl_enums::GL_TEXTURE_1D_ARRAY as u64, gl::TEXTURE_1D_ARRAY as u64);
    assert_eq!(gl_enums::GL_PROXY_TEXTURE_1D_ARRAY as u64, gl::PROXY_TEXTURE_1D_ARRAY as u64);
    assert_eq!(gl_enums::GL_TEXTURE_2D_ARRAY as u64, gl::TEXTURE_2D_ARRAY as u64);
    assert_eq!(gl_enums::GL_TEXTURE_CUBE_MAP_ARRAY as u64, gl::TEXTURE_CUBE_MAP_ARRAY as u64);
    assert_eq!(gl_enums::GL_TEXTURE_2D_MULTISAMPLE as u64, gl::TEXTURE_2D_MULTISAMPLE as u64);
    assert_eq!(gl_enums::GL_TEXTURE_2D_MULTISAMPLE_ARRAY as u64, gl::TEXTURE_2D_MULTISAMPLE_ARRAY as u64);
    assert_eq!(gl_enums::GL_R8 as u64, gl::R8 as u64);
    assert_eq!(gl_enums::GL_RG8 as u64, gl::RG8 as u64);
    assert_eq!(gl_enums::GL_RGB8 as u64, gl::RGB8 as u64);
    assert_eq!(gl_enums::GL_RGBA8 as u64, gl::RGBA8 as u64);
    assert_eq!(gl_enums::GL_BGR_INTEGER as u64, gl::BGR_INTEGER as u64);
    assert_eq!(gl_enums::GL_BGRA_INTEGER as u64, gl::BGRA_INTEGER as u64);
    assert_eq!(gl_enums::GL_UNSIGNED_BYTE_3_3_2 as u64, gl::UNSIGNED_BYTE_3_3_2 as u64);
    assert_eq!(gl_enums::GL_UNSIGNED_SHORT_4_4_4_4 as u64, gl::UNSIGNED_SHORT_4_4_4_4 as u64);
    assert_eq!(gl_enums::GL_UNSIGNED_SHORT_5_5_5_1 as u64, gl::UNSIGNED_SHORT_5_5_5_1 as u64);
    assert_eq!(gl_enums::GL_UNSIGNED_INT_8_8_8_8 as u64, gl::UNSIGNED_INT_8_8_8_8 as u64);
    assert_eq!(gl_enums::GL_UNSIGNED_INT_10_10_10_2 as u64, gl::UNSIGNED_INT_10_10_10_2 as u64);
    assert_eq!(gl_enums::GL_UNSIGNED_BYTE_2_3_3_REV as u64, gl::UNSIGNED_BYTE_2_3_3_REV as u64);
    assert_eq!(gl_enums::GL_UNSIGNED_SHORT_5_6_5 as u64, gl::UNSIGNED_SHORT_5_6_5 as u64);
    assert_eq!(gl_enums::GL_UNSIGNED_SHORT_5_6_5_REV as u64, gl::UNSIGNED_SHORT_5_6_5_REV as u64);
    assert_eq!(gl_enums::GL_UNSIGNED_SHORT_4_4_4_4_REV as u64, gl::UNSIGNED_SHORT_4_4_4_4_REV as u64);
    assert_eq!(gl_enums::GL_UNSIGNED_SHORT_1_5_5_5_REV as u64, gl::UNSIGNED_SHORT_1_5_5_5_REV as u64);
    assert_eq!(gl_enums::GL_UNSIGNED_INT_8_8_8_8_REV as u64, gl::UNSIGNED_INT_8_8_8_8_REV as u64);
    assert_eq!(gl_enums::GL_UNSIGNED_INT_2_10_10_10_REV as u64, gl::UNSIGNED_INT_2_10_10_10_REV as u64);
    assert_eq!(gl_enums::GL_TEXTURE0 as u64, gl::TEXTURE0 as u64);
    assert_eq!(gl_enums::GL_TEXTURE_MAG_FILTER as u64, gl::TEXTURE_MAG_FILTER as u64);
    assert_eq!(gl_enums::GL_TEXTURE_MIN_FILTER as u64, gl::TEXTURE_MIN_FILTER as u64);
    assert_eq!(gl_enums::GL_TEXTURE_WRAP_S as u64, gl::TEXTURE_WRAP_S as u64);
    assert_eq!(gl_enums::GL_TEXTURE_WRAP_T as u64, gl::TEXTURE_WRAP_T as u64);
    assert_eq!(gl_enums::GL_TEXTURE_WRAP_R as u64, gl::TEXTURE_WRAP_R as u64);
    assert_eq!(gl_enums::GL_LINEAR as u64, gl::LINEAR as u64);
    assert_eq!(gl_enums::GL_LINEAR_MIPMAP_NEAREST as u64, gl::LINEAR_MIPMAP_NEAREST as u64);
    assert_eq!(gl_enums::GL_REPEAT as u64, gl::REPEAT as u64);
    assert_eq!(gl_enums::GL_CLAMP_TO_BORDER as u64, gl::CLAMP_TO_BORDER as u64);
    assert_eq!(gl_enums::GL_UNPACK_ALIGNMENT as u64, gl::UNPACK_ALIGNMENT as u64);
}

#[test]
fn vertex_attribute_layouts() {
    let a = GlVertexAttribute::new(EnumAttributeType::Vec3, false, 4, 0, 16).unwrap();
    assert_eq!((a.m_gl_type, a.m_count, a.m_buffer_size, a.m_buffer_offset), (gl_enums::GL_FLOAT, 3, 12, 4));
    assert_eq!(a.m_normalized, 0);
    let m = GlVertexAttribute::new(EnumAttributeType::Mat4, true, 8, 1, 16).unwrap();
    assert_eq!((m.m_count, m.m_buffer_size, m.m_normalized, m.m_attribute_divisor), (16, 64, 1, 1));
    let s = GlVertexAttribute::new(EnumAttributeType::Short(2), false, 40, 0, 16).unwrap();
    assert_eq!(s.m_buffer_offset, 0);
    let d = GlVertexAttribute::new(EnumAttributeType::Double(1), false, 40, 0, 16).unwrap();
    assert_eq!((d.m_gl_type, d.m_buffer_size), (gl_enums::GL_DOUBLE, 8));
    assert_eq!(
        GlVertexAttribute::new(EnumAttributeType::Vec2, false, 0, 17, 16),
        Err(buf_err(EnumGlBufferError::InvalidAttributeDivisor))
    );
}

#[test]
fn vao_enables_attributes_in_order() {
    let mut vao = GlVao::new(3);
    let attrs = vec![
        GlVertexAttribute::new(EnumAttributeType::UnsignedInt(1), false, 0, 0, 16).unwrap(),
        GlVertexAttribute::new(EnumAttributeType::Mat4, false, 4, 0, 16).unwrap(),
        GlVertexAttribute::new(EnumAttributeType::Vec2, false, 68, 0, 16).unwrap(),
    ];
    let calls = vao.enable_attributes(76, &attrs, 16).unwrap();
    assert_eq!(calls.len(), 6);
    assert_eq!(
        calls[0],
        GlAttributePointer { m_index: 0, m_count: 1, m_gl_type: gl_enums::GL_UNSIGNED_INT, m_normalized: 0, m_stride: 76, m_offset: 0, m_integer: true }
    );
    for k in 0..4 {
        assert_eq!(calls[1 + k].m_index, 1 + k as u32);
        assert_eq!(calls[1 + k].m_count, 4);
        assert_eq!(calls[1 + k].m_offset, 4 + 16 * k);
        assert!(!calls[1 + k].m_integer);
    }
    assert_eq!(calls[5].m_index, 2);
    assert_eq!(calls[5].m_offset, 68);
    assert_eq!(vao.m_state, EnumBufferState::Bound);
    let mut empty = GlVao::default();
    assert_eq!(empty.enable_attributes(0, &vec![], 16), Err(buf_err(EnumGlBufferError::InvalidVertexAttribute)));
    assert_eq!(vao.enable_attributes(76, &attrs, 1), Err(buf_err(EnumGlBufferError::InvalidVertexAttribute)));
}

#[test]
fn vao_bind_calls_are_due_once() {
    let mut vao = GlVao::new(1);
    assert!(vao.bind());
    assert!(!vao.bind());
    assert!(vao.unbind());
    assert!(!vao.unbind());
    assert!(vao.free());
    assert_eq!(vao.m_state, EnumBufferState::Deleted);
}

#[test]
fn vbo_capacity_limits() {
    assert_eq!(GlVbo::check_capacity(0), Err(buf_err(EnumGlBufferError::InvalidBufferSize)));
    assert_eq!(GlVbo::check_capacity(C_VBO_SIZE_LIMIT), Err(buf_err(EnumGlBufferError::InvalidBufferSize)));
    assert_eq!(GlVbo::check_capacity(C_VBO_SIZE_LIMIT - 1), Ok(()));
    assert_eq!(GlIbo::check_capacity(C_IBO_SIZE_LIMIT), Ok(()));
    assert_eq!(GlIbo::check_capacity(C_IBO_SIZE_LIMIT + 1), Err(buf_err(EnumGlBufferError::InvalidBufferSize)));
    let v = GlVbo::new(gl_enums::GL_ARRAY_BUFFER, 100, 7).unwrap();
    assert_eq!((v.m_buffer_id, v.m_capacity, v.m_length, v.m_old_buffer_id), (7, 100, 0, 0));
    assert!(v.has_migrated());
    assert!(v.is_empty());
    assert_eq!(GlVbo::default().m_state, EnumBufferState::NotCreated);
}

#[test]
fn vbo_push_grows_when_needed() {
    let mut v = GlVbo::new(gl_enums::GL_ARRAY_BUFFER, 100, 1).unwrap();
    let w = v.plan_push(36, 2).unwrap();
    assert_eq!(w, GlBufferWrite { m_offset: 0, m_size: 72, m_count: 2, m_expand_by: 0 });
    v.push(w, 9);
    assert_eq!((v.m_length, v.m_count, v.m_capacity, v.m_buffer_id), (72, 2, 100, 1));
    let w = v.plan_push(36, 1).unwrap();
    assert_eq!(w.m_expand_by, 36);
    v.push(w, 2);
    assert_eq!((v.m_length, v.m_count, v.m_capacity, v.m_buffer_id, v.m_old_buffer_id), (108, 3, 136, 2, 1));
    assert_eq!(v.m_state, EnumBufferState::Bound);
    assert_eq!(v.plan_push(36, 0), Err(buf_err(EnumGlBufferError::InvalidBufferSize)));
    assert_eq!(v.plan_push(C_VBO_SIZE_LIMIT, 1), Err(buf_err(EnumGlBufferError::InvalidCapacitySize)));
}

#[test]
fn vbo_resize_shrink_and_strip() {
    let mut v = GlVbo::new(gl_enums::GL_ARRAY_BUFFER, 100, 1).unwrap();
    assert_eq!(v.resize(0, 2, 3), Err(buf_err(EnumGlBufferError::InvalidBufferSize)));
    assert_eq!(v.resize(100, 2, 3), Ok(()));
    assert_eq!(v.m_buffer_id, 1);
    assert_eq!(v.resize(40, 2, 3), Ok(()));
    assert_eq!((v.m_capacity, v.m_buffer_id, v.m_old_buffer_id), (100, 3, 2));
    assert_eq!(v.resize(150, 4, 5), Ok(()));
    assert_eq!(v.m_capacity, 250);
    assert_eq!(v.shrink(0, 6), Err(buf_err(EnumGlBufferError::InvalidBufferSize)));
    assert_eq!(v.shrink(50, 6), Ok(()));
    assert_eq!(v.m_capacity, 200);
    let w = v.plan_push(10, 3).unwrap();
    v.push(w, 7);
    assert_eq!(v.strip(0, 0, 1), Err(buf_err(EnumGlBufferError::InvalidBufferSize)));
    assert_eq!(v.strip(0, 10, 1), Ok(false));
    assert_eq!((v.m_length, v.m_count), (20, 2));
    assert_eq!(v.strip(0, 10, 2), Ok(true));
    assert_eq!((v.m_length, v.m_count), (10, 0));
    v.free();
    assert_eq!(v.m_state, EnumBufferState::Deleted);
}

#[test]
fn ibo_push_and_strip() {
    let mut i = GlIbo::new(12, 1).unwrap();
    assert!(i.is_empty());
    let w = i.plan_push(4, 6).unwrap();
    assert_eq!(w.m_expand_by, 24);
    i.push(w, 2);
    assert_eq!((i.m_length, i.m_count, i.m_capacity, i.m_buffer_id), (24, 6, 36, 2));
    assert_eq!(i.strip(0, 25), Err(buf_err(EnumGlBufferError::InvalidBufferSize)));
    assert_eq!(i.strip(0, 8), Ok(false));
    assert_eq!(i.m_length, 16);
    assert_eq!(i.strip(0, 16), Ok(true));
    assert_eq!(GlIbo::new(0, 1), Err(buf_err(EnumGlBufferError::InvalidBufferSize)));
}

#[test]
fn ubo_sizes_and_writes() {
    let mut u = GlUbo::new(Some("ubo_model"), EnumUboTypeSize::Transform(255), 4);
    assert_eq!((u.get_id(), u.len(), u.count(), u.get_name()), (4, 64 * 255, 255, Some("ubo_model")));
    let cam = GlUbo::new(Some("ubo_camera"), EnumUboTypeSize::ViewProjection, 5);
    assert_eq!((cam.len(), cam.count()), (128, 2));
    let flag = GlUbo::new(None, EnumUboTypeSize::Bool, 6);
    assert_eq!((flag.len(), flag.count()), (16, 1));
    let writes = u.push(EnumUboType::Transform(3)).unwrap();
    assert_eq!(writes, vec![GlUboWrite { m_offset: 3 * C_MAT4_SIZE, m_size: C_MAT4_SIZE, m_source: EnumUboSource::Matrix(0) }]);
    assert_eq!(u.m_state, EnumBufferState::Bound);
    assert!(u.push(EnumUboType::Transform(255)).is_ok());
    assert_eq!(u.push(EnumUboType::Transform(256)), Err(buf_err(EnumGlBufferError::InvalidBufferOffset)));
    let mut wf = GlUbo::new(Some("ubo_wireframe"), EnumUboTypeSize::Wireframe(255), 7);
    assert_eq!(
        wf.push(EnumUboType::Wireframe(true, 2)).unwrap(),
        vec![GlUboWrite { m_offset: 32, m_size: 4, m_source: EnumUboSource::Integer(1) }]
    );
    let mut c = cam;
    assert_eq!(c.push(EnumUboType::ViewProjection).unwrap().len(), 2);
    assert_eq!(c.push(EnumUboType::MVP).unwrap()[2].m_offset, 128);
    assert!(c.unbind());
    assert!(!c.unbind());
    c.free();
    assert_eq!(c.m_state, EnumBufferState::Deleted);
}

#[test]
fn ubo_block_binding() {
    let mut u = GlUbo::new(Some("ubo_model"), EnumUboTypeSize::Transform(1), 1);
    assert_eq!(u.bind_block(1, 36, 2, 0), Ok(true));
    assert_eq!(u.bind_block(1, 36, 2, 0), Ok(false));
    let mut v = GlUbo::new(Some("ubo_model"), EnumUboTypeSize::Transform(1), 1);
    assert_eq!(v.bind_block(9, 36, 2, 0), Err(buf_err(EnumGlBufferError::InvalidBlockBinding)));
    assert_eq!(v.bind_block(1, 36, 2, gl_enums::GL_INVALID_INDEX), Err(buf_err(EnumGlBufferError::InvalidBlockBinding)));
    let mut unnamed = GlUbo::new(None, EnumUboTypeSize::Int, 1);
    assert_eq!(unnamed.bind_block(0, 36, 2, 0), Err(buf_err(EnumGlBufferError::InvalidBlockBinding)));
}

#[test]
fn clearing_empties_buffers() {
    let mut vbo = GlVbo::new(gl_enums::GL_ARRAY_BUFFER, 100, 1).unwrap();
    vbo.push_elements(4, 5, 2).unwrap();
    assert_eq!(vbo.clear(), 20);
    assert_eq!((vbo.m_length, vbo.m_capacity, vbo.m_state), (0, 100, EnumBufferState::Bound));
    assert!(vbo.is_empty());

    let mut ibo = GlIbo::new(64, 3).unwrap();
    ibo.push_elements(4, 3, 4).unwrap();
    assert!(!ibo.is_empty());
    assert_eq!(ibo.clear(), 12);
    assert!(ibo.is_empty());
    assert_eq!(ibo.m_capacity, 64);

    let mut ubo = GlUbo::new(Some("ubo_model"), EnumUboTypeSize::Transform(4), 5);
    assert_eq!(ubo.len(), 256);
    assert_eq!(ubo.clear(), 256);
    assert_eq!(ubo.len(), 0);
    assert_eq!(ubo.m_state, EnumBufferState::Bound);
}

#[test]
fn appending_elements_grows_where_needed() {
    let mut vbo = GlVbo::new(gl_enums::GL_ARRAY_BUFFER, 40, 1).unwrap();
    assert_eq!(
        vbo.push_elements(36, 0, 2),
        Err(EnumOpenGLError::InvalidBufferOperation(EnumGlBufferError::InvalidBufferSize))
    );
    let w = vbo.push_elements(36, 1, 2).unwrap();
    assert_eq!((w.m_offset, w.m_size, w.m_expand_by), (0, 36, 0));
    let w = vbo.push_elements(36, 1, 7).unwrap();
    assert_eq!((w.m_offset, w.m_expand_by), (36, 36));
    assert_eq!((vbo.m_length, vbo.m_capacity, vbo.m_count, vbo.m_buffer_id, vbo.m_old_buffer_id), (72, 76, 2, 7, 1));
    let before = vbo;
    assert_eq!(
        vbo.push_elements(C_VBO_SIZE_LIMIT, 1, 9),
        Err(EnumOpenGLError::InvalidBufferOperation(EnumGlBufferError::InvalidCapacitySize))
    );
    assert_eq!(vbo, before);
}

#[test]
fn expanding_checks_the_limit() {
    let mut vbo = GlVbo::new(gl_enums::GL_ARRAY_BUFFER, 100, 1).unwrap();
    let before = vbo;
    assert_eq!(vbo.expand(0, 2), Err(buf_err(EnumGlBufferError::InvalidCapacitySize)));
    assert_eq!(vbo.expand(C_VBO_SIZE_LIMIT, 2), Err(buf_err(EnumGlBufferError::InvalidCapacitySize)));
    assert_eq!(vbo, before);
    assert_eq!(vbo.expand(50, 2), Ok(()));
    assert_eq!((vbo.m_capacity, vbo.m_buffer_id, vbo.m_old_buffer_id, vbo.m_length), (150, 2, 1, 0));
    assert!(vbo.has_migrated());
    let mut ibo = GlIbo::new(16, 3).unwrap();
    assert_eq!(ibo.expand(C_IBO_SIZE_LIMIT, 4), Err(buf_err(EnumGlBufferError::InvalidCapacitySize)));
    assert_eq!(ibo.expand(16, 4), Ok(()));
    assert_eq!(ibo.m_capacity, 32);
}
