use wave_engine::events::EnumEvent;
use wave_engine::graphics::color::Color;
use wave_engine::graphics::gl_debug::{debug_level, describe_debug_message, is_fatal_severity, EnumDebugLevel};
use wave_engine::graphics::renderer::{
    EnumRendererApi, EnumRendererBlendingFactor, EnumRendererCallCheckingMode, EnumRendererCull,
    EnumRendererError, EnumRendererHint, EnumRendererHintValue, EnumRendererOptimizationMode,
    EnumRendererRenderPrimitiveAs, EnumRendererState, EnumRendererTarget, Renderer,
};
use wave_engine::graphics::gl_context::{GlCall, GlContext};
use wave_engine::strings::{str_contains, str_eq, str_find, str_occurs_at};

fn base() -> Vec<EnumRendererHint> {
    vec![
        EnumRendererHint::ApiCallChecking(EnumRendererCallCheckingMode::Async),
        EnumRendererHint::SRGB(true),
        EnumRendererHint::DepthTest(true),
        EnumRendererHint::Blending(Some((
            EnumRendererBlendingFactor::SrcAlpha,
            EnumRendererBlendingFactor::OneMinusSrcAlpha,
        ))),
        EnumRendererHint::Optimization(EnumRendererOptimizationMode::MinimizeDrawCalls),
        EnumRendererHint::CullFacing(Some(EnumRendererCull::Back)),
    ]
}

#[test]
fn renderer_defaults() {
    let r = Renderer::default();
    let mut expected = base();
    expected.push(EnumRendererHint::MSAA(None));
    assert_eq!(r.m_hints, expected);
    assert_eq!(r.m_state, EnumRendererState::Created);
    assert_eq!(r.get_type(), EnumRendererApi::OpenGL);
    assert_eq!(EnumRendererCallCheckingMode::default(), EnumRendererCallCheckingMode::Async);
    assert_eq!(EnumRendererTarget::default(), EnumRendererTarget::Runtime);
    assert_eq!(EnumRendererCull::default(), EnumRendererCull::Back);
    assert_eq!(EnumRendererBlendingFactor::default(), EnumRendererBlendingFactor::OneMinusSrcAlpha);
    assert_eq!(EnumRendererRenderPrimitiveAs::default(), EnumRendererRenderPrimitiveAs::SolidWireframe);
    assert_eq!(EnumRendererOptimizationMode::default(), EnumRendererOptimizationMode::NoOptimizations);
}

#[test]
fn renderer_set_hint_replaces_same_kind() {
    let mut r = Renderer::new(EnumRendererApi::OpenGL);
    r.set_hint(EnumRendererHint::DepthTest(true));
    r.set_hint(EnumRendererHint::MSAA(Some(4)));
    r.set_hint(EnumRendererHint::DepthTest(false));
    assert_eq!(r.m_hints, vec![EnumRendererHint::MSAA(Some(4)), EnumRendererHint::DepthTest(false)]);
    r.set_hint(EnumRendererHint::DepthTest(false));
    assert_eq!(r.m_hints, vec![EnumRendererHint::MSAA(Some(4)), EnumRendererHint::DepthTest(false)]);
    r.reset_hints();
    assert_eq!(r.m_hints, base());
}

#[test]
fn renderer_apply_takes_base_hints_and_refuses_vulkan() {
    let mut r = Renderer::new(EnumRendererApi::OpenGL);
    assert_eq!(r.apply(), Ok(()));
    assert_eq!(r.m_hints, base());
    let mut v = Renderer::new(EnumRendererApi::Vulkan);
    assert_eq!(v.apply(), Err(EnumRendererError::InvalidApi));
    let mut kept = Renderer::new(EnumRendererApi::OpenGL);
    kept.set_hint(EnumRendererHint::SRGB(false));
    assert_eq!(kept.apply(), Ok(()));
    assert_eq!(kept.m_hints, vec![EnumRendererHint::SRGB(false)]);
}

#[test]
fn renderer_life_and_ids() {
    let mut r = Renderer::new(EnumRendererApi::OpenGL);
    assert!(r.needs_freeing());
    assert_eq!(r.register_id(), 0);
    assert_eq!(r.register_id(), 1);
    r.m_ids = vec![0, 2, 1, 5];
    assert_eq!(r.register_id(), 3);
    assert_eq!(r.register_id(), 4);
    assert_eq!(r.register_id(), 6);
    r.mark_deleted();
    assert!(!r.needs_freeing());
    assert!(Renderer::closes_on(&EnumEvent::WindowCloseEvent(3)));
    assert!(!Renderer::closes_on(&EnumEvent::FramebufferEvent(3, 4)));
}

#[test]
fn renderer_hint_values() {
    let a = EnumRendererHint::SplitLargeVertexBuffers(Some(10));
    let b = EnumRendererHint::SplitLargeVertexBuffers(None);
    let c = EnumRendererHint::SplitLargeIndexBuffers(Some(10));
    assert!(a.is_equivalent(&b));
    assert!(!a.is_equivalent(&c));
    assert_eq!(a.get_value(), EnumRendererHintValue::Limit(Some(10)));
    assert_eq!(c.get_value(), EnumRendererHintValue::Limit(Some(10)));
    assert_eq!(EnumRendererHint::SRGB(true).get_value(), EnumRendererHintValue::Flag(true));
    assert_eq!(EnumRendererHint::MSAA(Some(8)).get_value(), EnumRendererHintValue::SampleCount(Some(8)));
    assert_eq!(EnumRendererHint::ForceApiVersion(460).get_value(), EnumRendererHintValue::ApiVersion(460));
}

#[test]
fn renderer_names() {
    assert_eq!(EnumRendererBlendingFactor::OneMinusSrcColor.to_string(), "One minus source color");
    assert_eq!(EnumRendererBlendingFactor::ConstantAlpha.to_string(), "Constant alpha");
    assert_eq!(EnumRendererCull::FrontAndBack.to_string(), "Front and back face culling");
    assert_eq!(EnumRendererRenderPrimitiveAs::Points.to_string(), "Point");
    assert_eq!(EnumRendererRenderPrimitiveAs::SolidWireframe.to_string(), "Solid wireframe");
}

#[test]
fn color_packing() {
    let c = Color::default();
    assert_eq!(c.as_u8(), [255, 255, 255, 255]);
    let d = Color::from_u8([1, 2, 3, 4]);
    assert_eq!(d.m_rgba, 0x04030201);
    assert_eq!(d.as_u8(), [1, 2, 3, 4]);
    let mut e = Color::from_u32(0x11223344);
    assert_eq!(e.as_u8(), [0x44, 0x33, 0x22, 0x11]);
    e.reset();
    assert_eq!(e.m_rgba, 0xFFFF_FFFF);
}

#[test]
fn string_queries() {
    assert!(str_eq("abc", "abc"));
    assert!(!str_eq("abc", "abd"));
    assert!(!str_eq("abc", "ab"));
    assert!(str_occurs_at("#version 460 core", "460", 9));
    assert!(!str_occurs_at("#version 460 core", "460", 8));
    assert_eq!(str_find("#version 460 core", "core"), Some(13));
    assert_eq!(str_find("abc", "d"), None);
    assert_eq!(str_find("abc", ""), Some(0));
    assert!(str_contains("void main()", "main"));
    assert!(!str_contains("void main()", "Main"));
}

#[test]
fn gl_debug_messages() {
    let text = describe_debug_message(0x500, 0x824C, 0x9146, "bad enum").unwrap();
    assert_eq!(
        text,
        "\nCode =>\t\t 0x500;\nType =>\t\t Error;\nSeverity =>\t High (Fatal);\nMessage =>\t bad enum\n"
    );
    let text = describe_debug_message(0x1F, 0x824F, 0x9148, "m").unwrap();
    assert_eq!(text, "\nCode =>\t\t 0x1F;\nType =>\t\t Portability;\nSeverity =>\t Low;\nMessage =>\t m\n");
    let text = describe_debug_message(0xABCDEF12, 0x1234, 0x1, "").unwrap();
    assert_eq!(text, "\nCode =>\t\t 0xABCDEF12;\nType =>\t\t Error;\nSeverity =>\t Unknown;\nMessage =>\t \n");
    assert_eq!(describe_debug_message(0, 0x824C, 0x9146, "x"), None);
    assert_eq!(describe_debug_message(5, 0x8250, 0x9146, "x"), None);
    assert_eq!(describe_debug_message(5, 0x8251, 0x9146, "x"), None);
    assert_eq!(debug_level(0x9146), EnumDebugLevel::Error);
    assert_eq!(debug_level(0x9147), EnumDebugLevel::Warn);
    assert_eq!(debug_level(0x9148), EnumDebugLevel::Warn);
    assert_eq!(debug_level(0x826B), EnumDebugLevel::Info);
    assert_eq!(debug_level(7), EnumDebugLevel::Error);
    assert!(is_fatal_severity(0x9146));
    assert!(!is_fatal_severity(0x9147));
}

#[test]
fn frame_stats_start_from_zero() {
    let mut s = wave_engine::graphics::renderer::Stats::new();
    assert_eq!(s.m_entities_sent_count, 0);
    s.m_vao_bound_count = 3;
    s.m_texture_bound_count = 1;
    s.reset();
    assert_eq!(s, wave_engine::graphics::renderer::Stats::new());
}

#[test]
fn renderer_frees_its_context() {
    let mut r = Renderer::default();
    let mut ctx = GlContext::new();
    // The context was never created: its error is returned.
    assert_eq!(
        r.free(&mut ctx),
        Err(EnumRendererError::OpenGLError(wave_engine::graphics::renderer::EnumOpenGLError::InvalidContext))
    );
    assert_eq!(r.m_state, EnumRendererState::Created);
    ctx.m_state = EnumRendererState::Submitted;
    assert_eq!(
        r.on_event(&mut ctx, &wave_engine::events::EnumEvent::FramebufferEvent(640, 480)),
        Ok((true, Some(GlCall::Viewport(0, 0, 640, 480))))
    );
    assert_eq!(r.on_event(&mut ctx, &wave_engine::events::EnumEvent::WindowCloseEvent(3)), Ok((true, None)));
    assert_eq!(r.m_state, EnumRendererState::Deleted);
    assert_eq!(ctx.m_state, EnumRendererState::Deleted);
    // Nothing is left to free.
    assert_eq!(r.free(&mut ctx), Ok(()));
}

#[test]
fn renderer_gives_entities_free_ids() {
    let mut r = Renderer::default();
    assert_eq!(r.register_id(), 0);
    assert_eq!(r.register_id(), 1);
    assert_eq!(r.m_ids, vec![0, 1]);
}
