use wave_engine::engine::{AppLayer, EmptyApp, Engine, EnumEngineError, EnumEngineState, FrameCounter, TraitApp};
use wave_engine::events::{EnumEvent, EnumEventMask};
use wave_engine::graphics::renderer::{EnumRendererApi, EnumRendererError, Renderer};
use wave_engine::input::{EnumAction, EnumKey, EnumModifiers};
use wave_engine::layers::{TraitLayer, dispatch_continues, EnumLayerError, EnumLayerType, Layer, LayerStack};
use wave_engine::window::{
    polling_channels, EnumFeatures, EnumFullscreenChange, EnumPollingChannel, EnumWindowError,
    EnumWindowHint, EnumWindowMode, EnumWindowOption, EnumWindowRequest, EnumWindowState, Window,
};

fn layer(name: &str, t: EnumLayerType) -> Layer {
    Layer::new(name, t)
}

#[test]
fn layer_priorities_follow_kinds() {
    assert_eq!(EnumLayerType::Window.priority(), 0);
    assert_eq!(EnumLayerType::Imgui.priority(), 1);
    assert_eq!(EnumLayerType::Renderer.priority(), 2);
    assert_eq!(EnumLayerType::App.priority(), 3);
    let l = layer("Editor", EnumLayerType::App);
    assert!(l.is_named("Editor"));
    assert!(!l.is_named("editor"));
    assert!(l.is_type(EnumLayerType::App));
    assert_eq!(l.get_priority(), 3);
    assert_eq!(l.get_poll_mask(), EnumEventMask::Nothing());
    assert!(!l.is_sync_enabled());
}

#[test]
fn layer_stack_keeps_priority_order() {
    let mut stack = LayerStack::new();
    stack.push_layer(layer("app", EnumLayerType::App));
    stack.push_layer(layer("window", EnumLayerType::Window));
    stack.push_layer(layer("renderer", EnumLayerType::Renderer));
    stack.push_layer(layer("app2", EnumLayerType::App));
    stack.push_layer(layer("imgui", EnumLayerType::Imgui));
    let names: Vec<String> = (0..stack.len()).map(|i| stack.get(i).m_name.clone()).collect();
    assert_eq!(names, vec!["window", "imgui", "renderer", "app", "app2"]);
    let popped = stack.pop_layer().unwrap();
    assert_eq!(popped.m_name, "app2");
    assert_eq!(stack.len(), 4);
}

#[test]
fn layer_stack_from_layers_sorts() {
    let stack = LayerStack::from_layers(vec![
        layer("a", EnumLayerType::App),
        layer("r", EnumLayerType::Renderer),
        layer("w", EnumLayerType::Window),
    ]);
    let prios: Vec<u32> = (0..stack.len()).map(|i| stack.get(i).get_priority()).collect();
    assert_eq!(prios, vec![0, 2, 3]);
    let mut empty = LayerStack::new();
    assert!(empty.is_empty());
    assert!(empty.pop_layer().is_none());
}

#[test]
fn events_reach_polling_layers_top_down() {
    let mut w = layer("w", EnumLayerType::Window);
    w.enable_async_polling_for(EnumEventMask::Keyboard() | EnumEventMask::WindowClose());
    let mut a = layer("a", EnumLayerType::App);
    a.enable_async_polling_for(EnumEventMask::Keyboard());
    let r = layer("r", EnumLayerType::Renderer);
    let stack = LayerStack::from_layers(vec![w, r, a]);
    let key = EnumEvent::KeyEvent(EnumKey::W, EnumAction::Pressed, None, EnumModifiers(0));
    assert_eq!(stack.next_polling_layer(&key, stack.len()), Some(2));
    assert_eq!(stack.next_polling_layer(&key, 2), Some(0));
    assert_eq!(stack.next_polling_layer(&key, 0), None);
    let close = EnumEvent::WindowCloseEvent(1);
    assert_eq!(stack.next_polling_layer(&close, 3), Some(0));
    assert!(stack.any_polls(EnumEventMask::Keyboard()));
    assert!(!stack.any_polls(EnumEventMask::MouseBtn()));
    assert!(stack.should_enable_polling(EnumEventMask::Keyboard(), true));
    assert!(!stack.should_enable_polling(EnumEventMask::Keyboard(), false));
    assert!(stack.should_disable_polling(EnumEventMask::MouseBtn(), true));
}

#[test]
fn sync_layers_by_interval() {
    let mut a = layer("a", EnumLayerType::App);
    a.enable_sync_polling();
    a.set_sync_interval(3);
    assert!(a.is_sync_due(6));
    assert!(!a.is_sync_due(7));
    let mut b = layer("b", EnumLayerType::Renderer);
    b.enable_sync_polling();
    assert!(b.is_sync_due(7));
    b.disable_sync_polling();
    assert!(!b.is_sync_due(0));
    let stack = LayerStack::from_layers(vec![a, layer("w", EnumLayerType::Window)]);
    assert_eq!(stack.next_sync_layer(9, 2), Some(1));
    assert_eq!(stack.next_sync_layer(10, 2), None);
}

#[test]
fn dispatch_stops_at_handler_except_for_window_events() {
    let key = EnumEvent::KeyEvent(EnumKey::A, EnumAction::Pressed, None, EnumModifiers(0));
    assert!(dispatch_continues(&key, true, false));
    assert!(!dispatch_continues(&key, true, true));
    assert!(!dispatch_continues(&key, false, false));
    let resize = EnumEvent::FramebufferEvent(800, 600);
    assert!(dispatch_continues(&resize, true, true));
    assert!(!dispatch_continues(&resize, false, true));
    assert!(dispatch_continues(&EnumEvent::WindowCloseEvent(0), true, true));
}

#[test]
fn submit_keeps_identity_but_name() {
    let mut l = layer("x", EnumLayerType::Imgui);
    l.enable_async_polling_for(EnumEventMask::Mouse());
    l.submit();
    assert!(l.is_named("x"));
    assert_eq!(l.get_poll_mask(), EnumEventMask::Mouse());
    assert_eq!(l.get_priority(), 1);
}

fn new_engine() -> Engine {
    Engine::new(Window::new(), Renderer::new(EnumRendererApi::OpenGL), vec![layer("app", EnumLayerType::App)])
        .unwrap()
}

#[test]
fn engine_life_cycle() {
    let mut e = new_engine();
    assert_eq!(e.get_state(), EnumEngineState::NotStarted);
    assert_eq!(e.start_running(), Err(EnumEngineError::AppError));
    assert_eq!(e.begin_apply(), Ok(()));
    assert_eq!(e.get_state(), EnumEngineState::Starting);
    assert_eq!(e.m_layers.len(), 3);
    assert!(e.m_layers.get(0).is_named("Window Layer"));
    assert!(e.m_layers.get(1).is_named("Renderer Layer"));
    let core = EnumEventMask::WindowClose() | EnumEventMask::WindowSize() | EnumEventMask::Keyboard();
    assert_eq!(e.m_layers.get(0).get_poll_mask(), core);
    assert_eq!(e.m_layers.get(1).get_poll_mask(), core);
    assert_eq!(e.begin_apply(), Err(EnumEngineError::AppError));
    e.finish_apply();
    assert_eq!(e.start_running(), Ok(()));
    assert_eq!(e.get_state(), EnumEngineState::Running);
    e.begin_free();
    assert_eq!(e.get_state(), EnumEngineState::Deleting);
    e.finish_free();
    assert_eq!(e.get_state(), EnumEngineState::Deleted);
    e.mark_shut_down();
    assert_eq!(e.get_state(), EnumEngineState::ShutDown);
    assert_eq!(e.get_window_ref().get_state(), EnumWindowState::ContextReady);
    assert_eq!(e.get_renderer_ref().get_type(), EnumRendererApi::OpenGL);
}

#[test]
fn engine_push_and_pop_layers() {
    let mut e = new_engine();
    assert_eq!(e.push_layer(layer("ui", EnumLayerType::Imgui)), Ok(()));
    let top = e.pop_layer().unwrap().unwrap();
    assert!(top.is_named("app"));
    let next = e.pop_layer().unwrap().unwrap();
    assert!(next.is_named("ui"));
    assert!(e.pop_layer().unwrap().is_none());
}

#[test]
fn engine_errors_wrap_their_source() {
    assert_eq!(
        EnumEngineError::from(EnumLayerError::InvalidEventMask),
        EnumEngineError::LayerError(EnumLayerError::InvalidEventMask)
    );
    assert_eq!(
        EnumEngineError::from(EnumWindowError::ApiError),
        EnumEngineError::WindowError(EnumWindowError::ApiError)
    );
    assert_eq!(
        EnumEngineError::from(EnumRendererError::InvalidApi),
        EnumEngineError::RendererError(EnumRendererError::InvalidApi)
    );
}

#[test]
fn frame_counter_reports_changed_rates() {
    let mut c = FrameCounter::new();
    for _ in 0..60 {
        c.tick();
    }
    assert_eq!(c.on_second_elapsed(), Some(60));
    assert_eq!(c.m_frames, 0);
    for _ in 0..60 {
        c.tick();
    }
    assert_eq!(c.on_second_elapsed(), None);
    c.tick();
    assert_eq!(c.on_second_elapsed(), Some(1));
}

#[test]
fn empty_app_does_nothing() {
    let mut app = EmptyApp::default();
    assert_eq!(app.get_type(), EnumLayerType::App);
    assert!(app.on_apply().is_ok());
    assert_eq!(app.on_async_event(&EnumEvent::UnknownEvent), Ok(false));
    assert!(app.on_render().is_ok());
    assert!(app.free().is_ok());
    assert_eq!(app.to_string(), "[Empty App]");
    let wrapped = AppLayer::new(7u32);
    assert_eq!(wrapped.m_app, 7);
}

#[test]
fn app_layer_forwards_to_the_application() {
    let mut layer = AppLayer::new(EmptyApp::default());
    assert_eq!(layer.get_type(), EnumLayerType::App);
    assert!(layer.on_apply().is_ok());
    assert_eq!(layer.on_async_event(&EnumEvent::UnknownEvent), Ok(false));
    assert!(layer.on_render().is_ok());
    assert!(layer.free().is_ok());
    assert_eq!(TraitLayer::to_string(&layer), "[Empty App]");
}

#[test]
fn window_modes_and_hints() {
    assert_eq!(EnumWindowMode::Windowed.to_string(), "Windowed");
    assert_eq!(EnumWindowMode::Borderless.to_string(), "Borderless Window");
    assert_eq!(EnumWindowMode::Fullscreen.to_string(), "Fullscreen");
    assert_eq!(
        Window::default_hints(),
        vec![
            EnumWindowHint::Visible(false),
            EnumWindowHint::Decorated(true),
            EnumWindowHint::Resizable(true),
            EnumWindowHint::RefreshRate(None)
        ]
    );
    let mut w = Window::new();
    assert_eq!(w.window_hint(EnumWindowOption::WindowMode(EnumWindowMode::Borderless)), vec![]);
    assert_eq!(
        w.window_hint(EnumWindowOption::Resizable(true)),
        vec![EnumWindowHint::Resizable(false), EnumWindowHint::Decorated(false)]
    );
    assert_eq!(w.window_hint(EnumWindowOption::MSAA(Some(4))), vec![EnumWindowHint::Samples(Some(4))]);
    assert_eq!(w.m_samples, Some(4));
    assert_eq!(w.prepare_apply(), vec![EnumWindowHint::ClientApi(EnumRendererApi::OpenGL)]);
    assert_eq!(w.prepare_apply(), vec![]);
    assert!(w.swaps_on_refresh());
    let f = EnumFeatures::MSAA(Some(8));
    assert_ne!(f, EnumFeatures::VSync(true));
}

#[test]
fn window_events_and_fullscreen() {
    let mut w = Window::new();
    w.window_hint(EnumWindowOption::WindowMode(EnumWindowMode::Windowed));
    w.record_created(1280, 720, (10, 20));
    assert_eq!(w.get_state(), EnumWindowState::Created);
    assert_eq!(w.get_framebuffer_size((1920, 1080)), (1280, 720));
    let (handled, req) = w.on_event(&EnumEvent::FramebufferEvent(800, 600));
    assert!(handled);
    assert_eq!(req, EnumWindowRequest::Nothing);
    assert_eq!(w.m_window_resolution, Some((800, 600)));
    assert_eq!(w.m_previous_size, (1280, 720));
    let alt_enter = EnumEvent::KeyEvent(EnumKey::Enter, EnumAction::Pressed, None, EnumModifiers::Alt());
    assert_eq!(w.on_event(&alt_enter), (true, EnumWindowRequest::Fullscreen(EnumFullscreenChange::ToFullscreen(10, 20))));
    assert_eq!(
        w.on_event(&alt_enter),
        (true, EnumWindowRequest::Fullscreen(EnumFullscreenChange::FullscreenToWindowed(10, 20, 1280, 720)))
    );
    let alt_v = EnumEvent::KeyEvent(EnumKey::V, EnumAction::Pressed, None, EnumModifiers::Alt());
    assert_eq!(w.on_event(&alt_v), (true, EnumWindowRequest::SwapInterval(0)));
    assert_eq!(w.on_event(&alt_v), (true, EnumWindowRequest::SwapInterval(1)));
    let other = EnumEvent::KeyEvent(EnumKey::A, EnumAction::Pressed, None, EnumModifiers(0));
    assert_eq!(w.on_event(&other), (false, EnumWindowRequest::Nothing));
    let esc = EnumEvent::KeyEvent(EnumKey::Escape, EnumAction::Pressed, None, EnumModifiers(0));
    assert_eq!(w.on_event(&esc), (true, EnumWindowRequest::Close));
    assert!(w.is_closed());
}

#[test]
fn window_state_changes() {
    let mut w = Window::new();
    w.show();
    assert_eq!(w.get_state(), EnumWindowState::Visible);
    w.hide_window();
    assert_eq!(w.get_state(), EnumWindowState::Hidden);
    assert!(w.free().is_ok());
    assert!(w.is_closed());
    assert_eq!(w.toggle_vsync(), 0);
}

#[test]
fn polling_channels_of_masks() {
    assert_eq!(polling_channels(EnumEventMask::Nothing()), vec![]);
    assert_eq!(polling_channels(EnumEventMask::WindowClose()), vec![EnumPollingChannel::Close]);
    let m = EnumEventMask::Keyboard() | EnumEventMask::MouseScroll();
    assert_eq!(polling_channels(m), vec![EnumPollingChannel::Key, EnumPollingChannel::Scroll]);
}

#[test]
fn window_hints_take_options_in_order() {
    let mut w = Window::new();
    let hints = w.window_hints(vec![
        EnumWindowOption::Resizable(true),
        EnumWindowOption::WindowMode(EnumWindowMode::Fullscreen),
        EnumWindowOption::Resizable(true),
        EnumWindowOption::Resolution(640, 480),
        EnumWindowOption::RefreshRate(Some(60)),
    ]);
    assert_eq!(
        hints,
        vec![
            EnumWindowHint::Resizable(true),
            EnumWindowHint::Resizable(false),
            EnumWindowHint::RefreshRate(Some(60)),
        ]
    );
    assert_eq!(w.m_window_mode, Some(EnumWindowMode::Fullscreen));
    assert!(!w.m_is_windowed);
    assert_eq!(w.m_window_resolution, Some((640, 480)));
    assert_eq!(w.m_refresh_count_desired, Some(60));
}
