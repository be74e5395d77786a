use wave_engine::graphics::buffer::{EnumUboSource, EnumUboTypeSize, GlIbo, GlUbo, GlUboWrite, GlVao, GlVbo, C_MAT4_SIZE};
use wave_engine::graphics::gl_context::{
    alloc_capacities, blending_factor_to_gl, draw_call, offset_indices, plan_primitives, primitive_mode_calls,
    toggle_option, EnumCallCheckingType, EnumGlDrawCommandFunction, EnumGlElementType, EnumGlPrimitiveMode,
    EnumGlRenderStep, EnumRendererOption, GlCall, GlContext, GlSettings,
};
use wave_engine::graphics::gl_enums::{
    GL_ARRAY_BUFFER, GL_BACK, GL_BLEND, GL_CULL_FACE, GL_DEBUG_OUTPUT, GL_DEBUG_OUTPUT_SYNCHRONOUS, GL_DEPTH_TEST, GL_FILL, GL_FRAMEBUFFER_SRGB, GL_FRONT_AND_BACK, GL_LINE, GL_MULTISAMPLE, GL_ONE_MINUS_SRC_ALPHA, GL_POINT, GL_SRC_ALPHA,
};
use wave_engine::graphics::renderer::{
    EnumOpenGLError, EnumRendererBlendingFactor, EnumRendererCallCheckingMode, EnumRendererCull, EnumRendererError,
    EnumRendererHint, EnumRendererOptimizationMode, EnumRendererRenderPrimitiveAs, EnumRendererState,
};

fn settings() -> GlSettings {
    GlSettings { m_version: 460, m_batch_mode: EnumRendererOptimizationMode::NoOptimizations }
}

#[test]
fn toggle_options_turns_hints_into_calls() {
    let hints = vec![
        EnumRendererHint::ApiCallChecking(EnumRendererCallCheckingMode::Async),
        EnumRendererHint::DepthTest(true),
        EnumRendererHint::Blending(Some((EnumRendererBlendingFactor::SrcAlpha, EnumRendererBlendingFactor::OneMinusSrcAlpha))),
        EnumRendererHint::CullFacing(Some(EnumRendererCull::Back)),
        EnumRendererHint::Optimization(EnumRendererOptimizationMode::MinimizeDrawCalls),
        EnumRendererHint::ForceApiVersion(330),
        EnumRendererHint::SRGB(false),
        EnumRendererHint::MSAA(None),
    ];
    let mut s = settings();
    let plan = s.toggle_options(&hints, 8, 460, true);
    assert_eq!(plan.m_result, Ok(()));
    assert_eq!(
        plan.m_calls,
        vec![
            GlCall::Enable(GL_DEBUG_OUTPUT),
            GlCall::Disable(GL_DEBUG_OUTPUT_SYNCHRONOUS),
            GlCall::DebugMessageCallback,
            GlCall::DebugMessageControl,
            GlCall::Enable(GL_DEPTH_TEST),
            GlCall::Enable(GL_BLEND),
            GlCall::BlendFunc(GL_SRC_ALPHA, GL_ONE_MINUS_SRC_ALPHA),
            GlCall::Enable(GL_CULL_FACE),
            GlCall::CullFace(GL_BACK),
            GlCall::Disable(GL_FRAMEBUFFER_SRGB),
            GlCall::Disable(GL_MULTISAMPLE),
        ]
    );
    assert_eq!(s.m_batch_mode, EnumRendererOptimizationMode::MinimizeDrawCalls);
    assert_eq!(s.m_version, 330);
}

#[test]
fn toggle_options_stops_at_refused_multisampling() {
    let hints = vec![
        EnumRendererHint::DepthTest(false),
        EnumRendererHint::MSAA(Some(4)),
        EnumRendererHint::SRGB(true),
        EnumRendererHint::ForceApiVersion(500),
    ];
    let mut s = settings();
    let plan = s.toggle_options(&hints, 1, 460, false);
    assert_eq!(plan.m_result, Err(EnumRendererError::OpenGLError(EnumOpenGLError::MSAAError)));
    assert_eq!(plan.m_calls, vec![GlCall::Disable(GL_DEPTH_TEST)]);
    let mut s = settings();
    let plan = s.toggle_options(&hints, 4, 460, false);
    assert_eq!(plan.m_result, Ok(()));
    assert_eq!(s.m_version, 460);
    assert_eq!(plan.m_calls.len(), 3);
}

#[test]
fn toggle_single_options() {
    assert_eq!(
        toggle_option(EnumRendererOption::ApiCallChecking(EnumCallCheckingType::NoChecking), 4, true),
        Ok(vec![GlCall::Disable(GL_DEBUG_OUTPUT), GlCall::Disable(GL_DEBUG_OUTPUT_SYNCHRONOUS)])
    );
    assert_eq!(
        toggle_option(EnumRendererOption::Wireframe(true), 4, true),
        Ok(vec![GlCall::PolygonMode(GL_FRONT_AND_BACK, GL_LINE)])
    );
    assert_eq!(
        toggle_option(EnumRendererOption::Blending(true, 0x302, 0x303), 4, true),
        Ok(vec![GlCall::Enable(GL_BLEND), GlCall::BlendFunc(0x302, 0x303)])
    );
    assert_eq!(
        toggle_option(EnumRendererOption::CullFacing(Some(0x404)), 4, true),
        Ok(vec![GlCall::Enable(GL_CULL_FACE), GlCall::CullFace(0x404)])
    );
    assert_eq!(
        toggle_option(EnumRendererOption::MSAA(Some(4)), 0, true),
        Err(EnumRendererError::OpenGLError(EnumOpenGLError::MSAAError))
    );
    assert_eq!(toggle_option(EnumRendererOption::MSAA(None), 0, true), Ok(vec![GlCall::Disable(GL_MULTISAMPLE)]));
}

#[test]
fn primitive_modes_and_blending_values() {
    assert_eq!(
        primitive_mode_calls(EnumRendererRenderPrimitiveAs::SolidWireframe),
        (GlCall::PolygonMode(GL_FRONT_AND_BACK, GL_FILL), true)
    );
    assert_eq!(
        primitive_mode_calls(EnumRendererRenderPrimitiveAs::Points),
        (GlCall::PolygonMode(GL_FRONT_AND_BACK, GL_POINT), false)
    );
    assert_eq!(blending_factor_to_gl(EnumRendererBlendingFactor::Zero), 0);
    assert_eq!(blending_factor_to_gl(EnumRendererBlendingFactor::OneMinusConstantAlpha), gl::ONE_MINUS_CONSTANT_ALPHA);
    assert_eq!(EnumGlElementType::UnsignedInt.to_gl(), gl::UNSIGNED_INT);
}

#[test]
fn draw_call_choice() {
    let min = EnumRendererOptimizationMode::MinimizeDrawCalls;
    let none = EnumRendererOptimizationMode::NoOptimizations;
    assert_eq!(draw_call(false, 0, 3, 460, min), EnumGlDrawCommandFunction::MultiDrawArraysIndirect(EnumGlPrimitiveMode::Triangle, 3, 0));
    assert_eq!(draw_call(false, 0, 3, 420, min), EnumGlDrawCommandFunction::MultiDrawArrays(EnumGlPrimitiveMode::Triangle, 3));
    assert_eq!(
        draw_call(true, 36, 3, 460, min),
        EnumGlDrawCommandFunction::MultiDrawElementsIndirect(EnumGlPrimitiveMode::Triangle, EnumGlElementType::UnsignedInt, 3, 0)
    );
    assert_eq!(
        draw_call(true, 36, 3, 410, min),
        EnumGlDrawCommandFunction::DrawElements(EnumGlPrimitiveMode::Triangle, 36, EnumGlElementType::UnsignedInt, 0)
    );
    assert_eq!(
        draw_call(true, 36, 3, 460, none),
        EnumGlDrawCommandFunction::MultiDrawElementsBaseVertex(EnumGlPrimitiveMode::Triangle, EnumGlElementType::UnsignedInt, 3)
    );
}

#[test]
fn buffer_capacities_and_index_offsets() {
    assert_eq!(alloc_capacities(36, 10, 0), (360, None));
    assert_eq!(alloc_capacities(36, 10, 6), (360, Some(24)));
    assert_eq!(offset_indices(&vec![0, 1, 2], 5), vec![5, 6, 7]);
    assert_eq!(offset_indices(&vec![], 5), Vec::<u32>::new());
}

#[test]
fn planned_primitives_follow_each_other() {
    let counts = vec![(4usize, 6usize), (3, 3)];
    let first = plan_primitives(None, (0, 0, 0), 7, 42, &counts);
    assert_eq!((first.m_linked_shader, first.m_vao_index, first.m_vbo_index, first.m_ibo_index), (7, 0, 0, 0));
    assert_eq!(first.m_primitives.len(), 2);
    let p0 = first.m_primitives[0];
    assert_eq!((p0.m_uuid, p0.m_ibo_offset, p0.m_vbo_count, p0.m_ibo_count, p0.m_base_vertex, p0.m_base_index, p0.m_entity_offset, p0.m_visible), (42, 0, 4, 6, 0, 0, 0, false));
    let p1 = first.m_primitives[1];
    assert_eq!((p1.m_ibo_offset, p1.m_vbo_count, p1.m_base_vertex, p1.m_entity_offset), (24, 3, 4, 1));
    let second = plan_primitives(Some(&first), (5, 5, 5), 7, 43, &vec![(2, 3)]);
    assert_eq!(second.m_vao_index, 0);
    let q = second.m_primitives[0];
    assert_eq!((q.m_uuid, q.m_base_vertex, q.m_base_index, q.m_ibo_offset, q.m_entity_offset), (43, 7, 7, 36, 2));
}

#[test]
fn context_queue_and_render_plan() {
    let mut ctx = GlContext::new();
    assert_eq!(ctx.m_state, EnumRendererState::NotCreated);
    assert_eq!(ctx.free(), Err(EnumRendererError::OpenGLError(EnumOpenGLError::InvalidContext)));
    assert!(ctx.plan_render().is_empty());
    ctx.m_vao_buffers.push(GlVao::new(1));
    ctx.m_vbo_buffers.push(GlVbo::new(GL_ARRAY_BUFFER, 1000, 2).unwrap());
    let cmd = ctx.enqueue_layout(9, 1, &vec![(3, 0)]);
    assert_eq!((cmd.m_linked_shader, cmd.m_vao_index, cmd.m_vbo_index), (9, 0, 0));
    let data = ctx.push_command(cmd);
    assert!(data.m_new_indirect_buffer.is_none());
    assert_eq!(ctx.m_commands.m_draw_commands.len(), 1);
    assert_eq!(ctx.m_commands.m_draw_command_vertex_count_array, vec![3]);
    ctx.m_state = EnumRendererState::Submitted;
    assert_eq!(
        ctx.plan_render(),
        vec![
            EnumGlRenderStep::Clear,
            EnumGlRenderStep::UseProgram(9),
            EnumGlRenderStep::BindVao(0),
            EnumGlRenderStep::Draw(EnumGlDrawCommandFunction::MultiDrawArrays(EnumGlPrimitiveMode::Triangle, 1)),
        ]
    );
    assert_eq!(ctx.toggle_visibility_of(1, None, 1, true), Ok(()));
    assert!(ctx.m_commands.m_draw_commands[0].m_primitives[0].m_visible);
    assert_eq!(ctx.toggle_visibility_of(99, None, 1, true), Err(EnumRendererError::EntityNotFound));
    ctx.flush();
    assert!(ctx.m_commands.m_draw_commands.is_empty());
    assert_eq!(ctx.free(), Ok(()));
    assert_eq!(ctx.m_state, EnumRendererState::Deleted);
}

#[test]
fn context_uniform_updates() {
    let mut ctx = GlContext::new();
    assert_eq!(ctx.update_ubo_camera(), Err(EnumRendererError::UboNotFound));
    ctx.m_ubo_buffers.push(GlUbo::new(Some("ubo_camera"), EnumUboTypeSize::ViewProjection, 1));
    ctx.m_ubo_buffers.push(GlUbo::new(Some("ubo_wireframe"), EnumUboTypeSize::Wireframe(255), 2));
    assert_eq!(ctx.find_ubo("ubo_wireframe"), Some(1));
    assert_eq!(ctx.find_ubo("ubo_model"), None);
    assert_eq!(
        ctx.update_ubo_camera().unwrap(),
        vec![
            GlUboWrite { m_offset: 0, m_size: C_MAT4_SIZE, m_source: EnumUboSource::Matrix(1) },
            GlUboWrite { m_offset: C_MAT4_SIZE, m_size: C_MAT4_SIZE, m_source: EnumUboSource::Matrix(2) },
        ]
    );
    let (writes, result) = ctx.update_instances("ubo_wireframe", Some(true), 4, Some(1), 3);
    assert_eq!(result, Ok(()));
    assert_eq!(
        writes,
        vec![
            GlUboWrite { m_offset: 16 * 5, m_size: 4, m_source: EnumUboSource::Integer(1) },
            GlUboWrite { m_offset: 16 * 6, m_size: 4, m_source: EnumUboSource::Integer(1) },
        ]
    );
    let (writes, result) = ctx.update_instances("ubo_model", None, 0, None, 1);
    assert_eq!(result, Err(EnumRendererError::UboNotFound));
    assert!(writes.is_empty());
    let _ = GlIbo::default();
}

#[test]
fn commands_keep_one_per_shader() {
    let mut ctx = GlContext::new();
    ctx.m_vao_buffers.push(GlVao::new(1));
    ctx.m_vbo_buffers.push(GlVbo::new(GL_ARRAY_BUFFER, 1000, 2).unwrap());
    let a = ctx.enqueue_layout(9, 1, &vec![(3, 0)]);
    ctx.push_command(a);
    let b = ctx.enqueue_layout(4, 2, &vec![(3, 0)]);
    ctx.push_command(b);
    let c = ctx.enqueue_layout(9, 3, &vec![(6, 0)]);
    ctx.push_command(c);
    let shaders: Vec<u32> = ctx.m_commands.m_draw_commands.iter().map(|c| c.m_linked_shader).collect();
    assert_eq!(shaders, vec![9, 4]);
    assert_eq!(ctx.m_commands.m_draw_commands[0].m_primitives.len(), 2);
    assert_eq!(ctx.m_commands.m_draw_commands[0].m_primitives[1].m_uuid, 3);
}

#[test]
fn uniform_updates_bind_only_the_first_block() {
    let mut ctx = GlContext::new();
    ctx.m_ubo_buffers.push(GlUbo::new(Some("ubo_model"), EnumUboTypeSize::Transform(8), 1));
    ctx.m_ubo_buffers.push(GlUbo::new(Some("ubo_model"), EnumUboTypeSize::Transform(8), 2));
    let (_, result) = ctx.update_instances("ubo_model", None, 0, Some(2), 2);
    assert_eq!(result, Ok(()));
    assert_eq!(ctx.m_ubo_buffers[0].m_state, wave_engine::graphics::buffer::EnumBufferState::Created);
    let (writes, result) = ctx.update_instances("ubo_model", None, 0, Some(0), 2);
    assert_eq!(result, Ok(()));
    assert_eq!(writes.len(), 2);
    assert_eq!(ctx.m_ubo_buffers[0].m_state, wave_engine::graphics::buffer::EnumBufferState::Bound);
    assert_eq!(ctx.m_ubo_buffers[1].m_state, wave_engine::graphics::buffer::EnumBufferState::Created);
}

#[test]
fn framebuffer_events_set_the_viewport() {
    let ctx = GlContext::new();
    assert_eq!(
        ctx.on_event(&wave_engine::events::EnumEvent::FramebufferEvent(800, 600)),
        (true, Some(GlCall::Viewport(0, 0, 800, 600)))
    );
    assert_eq!(ctx.on_event(&wave_engine::events::EnumEvent::WindowFocusEvent(true)), (false, None));
}

#[test]
fn extensions_are_looked_up_by_name() {
    let mut ctx = GlContext::new();
    assert!(!ctx.check_extension("GL_ARB_gl_spirv"));
    ctx.m_extensions = vec!["GL_KHR_debug".to_string(), "GL_ARB_gl_spirv".to_string()];
    assert!(ctx.check_extension("GL_ARB_gl_spirv"));
    assert!(!ctx.check_extension("GL_ARB_gl"));
}
