//! The engine: its error type, its life cycle and the bookkeeping of its
//! main loop. The loop itself (polling the window, timing frames, calling
//! each layer) runs outside; it asks these functions what to do next.

use vstd::prelude::*;

use crate::assets::asset_loader::EnumAssetError;
use crate::events::{EnumEvent, EnumEventError, EnumEventMask};
use crate::graphics::renderer::{EnumRendererError, Renderer};
use crate::graphics::shader::EnumShaderError;
use crate::input::EnumInputError;
use crate::layers::{spec_count_at_most, EnumLayerError, EnumLayerType, Layer, LayerStack, TraitLayer};
use crate::ui::EnumUIError;
use crate::window::{EnumWindowError, Window};

verus! {

/// Errors the engine reports, each wrapping the error of the part that failed.
#[derive(Debug, PartialEq)]
pub enum EnumEngineError {
    NoActiveEngine,
    UndefinedError,
    AppError,
    LayerError(EnumLayerError),
    ResourceError(EnumAssetError),
    ShaderError(EnumShaderError),
    RendererError(EnumRendererError),
    WindowError(EnumWindowError),
    InputError(EnumInputError),
    UiError(EnumUIError),
    EventError(EnumEventError),
}

impl From<EnumLayerError> for EnumEngineError {
    fn from(err: EnumLayerError) -> (r: Self) {
        EnumEngineError::LayerError(err)
    }
}

impl vstd::std_specs::convert::FromSpecImpl<EnumLayerError> for EnumEngineError {
    open spec fn obeys_from_spec() -> bool {
        true
    }

    open spec fn from_spec(v: EnumLayerError) -> Self {
        EnumEngineError::LayerError(v)
    }
}

impl From<EnumRendererError> for EnumEngineError {
    fn from(err: EnumRendererError) -> (r: Self) {
        EnumEngineError::RendererError(err)
    }
}

impl vstd::std_specs::convert::FromSpecImpl<EnumRendererError> for EnumEngineError {
    open spec fn obeys_from_spec() -> bool {
        true
    }

    open spec fn from_spec(v: EnumRendererError) -> Self {
        EnumEngineError::RendererError(v)
    }
}

impl From<EnumAssetError> for EnumEngineError {
    fn from(err: EnumAssetError) -> (r: Self) {
        EnumEngineError::ResourceError(err)
    }
}

impl vstd::std_specs::convert::FromSpecImpl<EnumAssetError> for EnumEngineError {
    open spec fn obeys_from_spec() -> bool {
        true
    }

    open spec fn from_spec(v: EnumAssetError) -> Self {
        EnumEngineError::ResourceError(v)
    }
}

impl From<EnumShaderError> for EnumEngineError {
    fn from(err: EnumShaderError) -> (r: Self) {
        EnumEngineError::ShaderError(err)
    }
}

impl vstd::std_specs::convert::FromSpecImpl<EnumShaderError> for EnumEngineError {
    open spec fn obeys_from_spec() -> bool {
        true
    }

    open spec fn from_spec(v: EnumShaderError) -> Self {
        EnumEngineError::ShaderError(v)
    }
}

impl From<EnumWindowError> for EnumEngineError {
    fn from(err: EnumWindowError) -> (r: Self) {
        EnumEngineError::WindowError(err)
    }
}

impl vstd::std_specs::convert::FromSpecImpl<EnumWindowError> for EnumEngineError {
    open spec fn obeys_from_spec() -> bool {
        true
    }

    open spec fn from_spec(v: EnumWindowError) -> Self {
        EnumEngineError::WindowError(v)
    }
}

impl From<EnumInputError> for EnumEngineError {
    fn from(err: EnumInputError) -> (r: Self) {
        EnumEngineError::InputError(err)
    }
}

impl vstd::std_specs::convert::FromSpecImpl<EnumInputError> for EnumEngineError {
    open spec fn obeys_from_spec() -> bool {
        true
    }

    open spec fn from_spec(v: EnumInputError) -> Self {
        EnumEngineError::InputError(v)
    }
}

impl From<EnumUIError> for EnumEngineError {
    fn from(err: EnumUIError) -> (r: Self) {
        EnumEngineError::UiError(err)
    }
}

impl vstd::std_specs::convert::FromSpecImpl<EnumUIError> for EnumEngineError {
    open spec fn obeys_from_spec() -> bool {
        true
    }

    open spec fn from_spec(v: EnumUIError) -> Self {
        EnumEngineError::UiError(v)
    }
}

impl From<EnumEventError> for EnumEngineError {
    fn from(err: EnumEventError) -> (r: Self) {
        EnumEngineError::EventError(err)
    }
}

impl vstd::std_specs::convert::FromSpecImpl<EnumEventError> for EnumEngineError {
    open spec fn obeys_from_spec() -> bool {
        true
    }

    open spec fn from_spec(v: EnumEventError) -> Self {
        EnumEngineError::EventError(v)
    }
}

/// Where the engine is in its life.
#[derive(Debug, Copy, Clone, PartialEq, Eq, Structural, Hash)]
pub enum EnumEngineState {
    NotStarted,
    Starting,
    Started,
    Running,
    Deleting,
    Deleted,
    ShutDown,
}

/// The events the window and renderer layers poll from the start.
pub open spec fn spec_core_poll_mask() -> u16 {
    crate::events::mask_window_close() | crate::events::mask_window_size()
        | crate::events::mask_keyboard()
}

/// The engine: a window, a renderer, the layers in priority order, and its
/// life-cycle state.
pub struct Engine {
    pub m_layers: LayerStack,
    pub m_window: Window,
    pub m_renderer: Renderer,
    pub m_state: EnumEngineState,
}

impl Engine {
    /// The well-formedness of an engine: its layers are in priority order.
    pub open spec fn wf(&self) -> bool {
        self.m_layers.wf()
    }

    /// An engine that has not started, over `window`, `renderer` and the
    /// application's layers (put in priority order).
    pub fn new(window: Window, renderer: Renderer, app_layers: Vec<Layer>) -> (r: Result<Engine, EnumEngineError>)
        ensures
            r matches Ok(e) && e.wf() && e.m_state == EnumEngineState::NotStarted
                && e.m_window == window && e.m_renderer == renderer
                && e.m_layers@.to_multiset() == app_layers@.to_multiset(),
    {
        Ok(Engine {
            m_layers: LayerStack::from_layers(app_layers),
            m_window: window,
            m_renderer: renderer,
            m_state: EnumEngineState::NotStarted,
        })
    }

    /// The first half of launching: refused unless the engine has not
    /// started; otherwise the engine is starting and holds a window layer and
    /// a renderer layer, each polling window-close, window-size and keyboard
    /// events. The window is then set up, and each layer applied, outside.
    pub fn begin_apply(&mut self) -> (r: Result<(), EnumEngineError>)
        requires
            old(self).wf(),
        ensures
            final(self).wf(),
            old(self).m_state != EnumEngineState::NotStarted ==> r == Err::<(), EnumEngineError>(
                EnumEngineError::AppError,
            ) && *final(self) == *old(self),
            old(self).m_state == EnumEngineState::NotStarted ==> r is Ok && final(self).m_state
                == EnumEngineState::Starting && (exists|w: Layer, rl: Layer|
                w.m_type == EnumLayerType::Window && w.m_name@ == "Window Layer"@
                    && w.spec_poll_mask() == spec_core_poll_mask() && rl.m_type
                    == EnumLayerType::Renderer && rl.m_name@ == "Renderer Layer"@
                    && rl.spec_poll_mask() == spec_core_poll_mask() && final(self).m_layers@.to_multiset()
                    == old(self).m_layers@.to_multiset().insert(w).insert(rl)),
            final(self).m_window == old(self).m_window,
            final(self).m_renderer == old(self).m_renderer,
    {
        if self.m_state != EnumEngineState::NotStarted {
            return Err(EnumEngineError::AppError);
        }
        self.m_state = EnumEngineState::Starting;
        let core_mask = EnumEventMask::WindowClose().union(EnumEventMask::WindowSize()).union(
            EnumEventMask::Keyboard(),
        );
        let mut window_layer = Layer::new("Window Layer", EnumLayerType::Window);
        let mut renderer_layer = Layer::new("Renderer Layer", EnumLayerType::Renderer);
        window_layer.enable_async_polling_for(core_mask);
        renderer_layer.enable_async_polling_for(core_mask);
        let ghost w = window_layer;
        let ghost rl = renderer_layer;
        self.m_layers.push_layer(window_layer);
        self.m_layers.push_layer(renderer_layer);
        assert(w.spec_poll_mask() == spec_core_poll_mask() && rl.spec_poll_mask()
            == spec_core_poll_mask());
        assert(self.m_layers@.to_multiset() == old(self).m_layers@.to_multiset().insert(w).insert(
            rl,
        ));
        assert(w.m_type == EnumLayerType::Window && w.m_name@ == "Window Layer"@);
        assert(rl.m_type == EnumLayerType::Renderer && rl.m_name@ == "Renderer Layer"@);
        Ok(())
    }

    /// The second half of launching, once every layer applied: the engine
    /// has started.
    pub fn finish_apply(&mut self)
        ensures
            *final(self) == (Engine { m_state: EnumEngineState::Started, ..*old(self) }),
    {
        self.m_state = EnumEngineState::Started;
    }

    /// Enters the main loop: refused unless the engine has started.
    pub fn start_running(&mut self) -> (r: Result<(), EnumEngineError>)
        ensures
            old(self).m_state == EnumEngineState::Started ==> r is Ok && *final(self) == (Engine {
                m_state: EnumEngineState::Running,
                ..*old(self)
            }),
            old(self).m_state != EnumEngineState::Started ==> r == Err::<(), EnumEngineError>(
                EnumEngineError::AppError,
            ) && *final(self) == *old(self),
    {
        if self.m_state != EnumEngineState::Started {
            return Err(EnumEngineError::AppError);
        }
        self.m_state = EnumEngineState::Running;
        Ok(())
    }

    /// Shutting down begins: the layers are freed next, from the top down.
    pub fn begin_free(&mut self)
        ensures
            *final(self) == (Engine { m_state: EnumEngineState::Deleting, ..*old(self) }),
    {
        self.m_state = EnumEngineState::Deleting;
    }

    /// Every layer was freed: the engine is deleted.
    pub fn finish_free(&mut self)
        ensures
            *final(self) == (Engine { m_state: EnumEngineState::Deleted, ..*old(self) }),
    {
        self.m_state = EnumEngineState::Deleted;
    }

    /// The engine was freed on its way out: it is shut down.
    pub fn mark_shut_down(&mut self)
        ensures
            *final(self) == (Engine { m_state: EnumEngineState::ShutDown, ..*old(self) }),
    {
        self.m_state = EnumEngineState::ShutDown;
    }

    pub fn get_state(&self) -> (r: EnumEngineState)
        ensures
            r == self.m_state,
    {
        self.m_state
    }

    pub fn get_window_ref(&self) -> (r: &Window)
        ensures
            *r == self.m_window,
    {
        &self.m_window
    }

    pub fn get_renderer_ref(&self) -> (r: &Renderer)
        ensures
            *r == self.m_renderer,
    {
        &self.m_renderer
    }

    /// Adds `new_layer` after every layer of lower or equal priority.
    pub fn push_layer(&mut self, new_layer: Layer) -> (r: Result<(), EnumEngineError>)
        requires
            old(self).wf(),
        ensures
            r is Ok,
            final(self).wf(),
            final(self).m_layers@ == old(self).m_layers@.insert(
                spec_count_at_most(old(self).m_layers@, new_layer.spec_priority()) as int,
                new_layer,
            ),
            final(self).m_state == old(self).m_state,
            final(self).m_window == old(self).m_window,
            final(self).m_renderer == old(self).m_renderer,
    {
        self.m_layers.push_layer(new_layer);
        Ok(())
    }

    /// Removes and returns the layer of highest priority, if any.
    pub fn pop_layer(&mut self) -> (r: Result<Option<Layer>, EnumEngineError>)
        requires
            old(self).wf(),
        ensures
            final(self).wf(),
            old(self).m_layers@.len() == 0 ==> r == Ok::<Option<Layer>, EnumEngineError>(None)
                && final(self).m_layers@ == old(self).m_layers@,
            old(self).m_layers@.len() > 0 ==> r == Ok::<Option<Layer>, EnumEngineError>(
                Some(old(self).m_layers@.last()),
            ) && final(self).m_layers@ == old(self).m_layers@.drop_last(),
            final(self).m_state == old(self).m_state,
            final(self).m_window == old(self).m_window,
            final(self).m_renderer == old(self).m_renderer,
    {
        Ok(self.m_layers.pop_layer())
    }
}

/// The frames counted over the current second, and the count last shown in
/// the window title.
#[derive(Debug, Copy, Clone, PartialEq, Eq, Structural, Hash)]
pub struct FrameCounter {
    pub m_frames: u32,
    pub m_last_shown: u32,
}

impl FrameCounter {
    pub fn new() -> (r: FrameCounter)
        ensures
            r.m_frames == 0 && r.m_last_shown == 0,
    {
        FrameCounter { m_frames: 0, m_last_shown: 0 }
    }

    /// One more frame was drawn.
    pub fn tick(&mut self)
        requires
            old(self).m_frames < u32::MAX,
        ensures
            final(self).m_frames == old(self).m_frames + 1,
            final(self).m_last_shown == old(self).m_last_shown,
    {
        self.m_frames = self.m_frames + 1;
    }

    /// A second passed: the count starts again. Returns the frame rate to
    /// show when it differs from the one shown last.
    pub fn on_second_elapsed(&mut self) -> (r: Option<u32>)
        ensures
            r == (if old(self).m_frames != old(self).m_last_shown {
                Some(old(self).m_frames)
            } else {
                None
            }),
            final(self).m_frames == 0,
            final(self).m_last_shown == old(self).m_frames,
    {
        let shown = if self.m_frames != self.m_last_shown {
            Some(self.m_frames)
        } else {
            None
        };
        self.m_last_shown = self.m_frames;
        self.m_frames = 0;
        shown
    }
}

/// What an application built on the engine does at each step of the
/// engine's life; each application implements it.
pub trait TraitApp {
    /// Readies the application once the engine is applied.
    fn on_apply(&mut self) -> Result<(), EnumEngineError>;

    /// Handles an event; returns whether the application consumed it.
    fn on_async_event(&mut self, event: &EnumEvent) -> Result<bool, EnumEngineError>;

    /// Draws the application's frame.
    fn on_render(&mut self) -> Result<(), EnumEngineError>;

    /// Releases what the application holds.
    fn free(&mut self) -> Result<(), EnumEngineError>;

    /// The application's description.
    fn to_string(&self) -> String;
}

/// An application that does nothing.
pub struct EmptyApp {}

impl EmptyApp {
    pub fn default() -> (r: EmptyApp)
        ensures
            r == (EmptyApp {  }),
    {
        EmptyApp {  }
    }

    pub fn get_type(&self) -> (r: EnumLayerType)
        ensures
            r == EnumLayerType::App,
    {
        EnumLayerType::App
    }
}

impl TraitApp for EmptyApp {
    fn on_apply(&mut self) -> (r: Result<(), EnumEngineError>)
        ensures
            r is Ok,
    {
        Ok(())
    }

    /// An empty application never handles an event.
    fn on_async_event(&mut self, _event: &EnumEvent) -> (r: Result<bool, EnumEngineError>)
        ensures
            r == Ok::<bool, EnumEngineError>(false),
    {
        Ok(false)
    }

    fn on_render(&mut self) -> (r: Result<(), EnumEngineError>)
        ensures
            r is Ok,
    {
        Ok(())
    }

    fn free(&mut self) -> (r: Result<(), EnumEngineError>)
        ensures
            r is Ok,
    {
        Ok(())
    }

    fn to_string(&self) -> (r: String)
        ensures
            r@ == "[Empty App]"@,
    {
        String::from_str("[Empty App]")
    }
}

/// The layer that hands the engine's calls to the application.
pub struct AppLayer<A> {
    pub m_app: A,
}

impl<A> AppLayer<A> {
    pub fn new(app: A) -> (r: AppLayer<A>)
        ensures
            r.m_app == app,
    {
        AppLayer { m_app: app }
    }
}

impl<A: TraitApp> TraitLayer for AppLayer<A> {
    /// An application's layer is drawn last.
    fn get_type(&self) -> (r: EnumLayerType)
        ensures
            r == EnumLayerType::App,
    {
        EnumLayerType::App
    }

    fn on_apply(&mut self) -> (r: Result<(), EnumEngineError>) {
        self.m_app.on_apply()
    }

    fn on_async_event(&mut self, event: &EnumEvent) -> (r: Result<bool, EnumEngineError>) {
        self.m_app.on_async_event(event)
    }

    fn on_render(&mut self) -> (r: Result<(), EnumEngineError>) {
        self.m_app.on_render()
    }

    fn free(&mut self) -> (r: Result<(), EnumEngineError>) {
        self.m_app.free()
    }

    /// The application's own description.
    fn to_string(&self) -> (r: String)
        ensures
            call_ensures(A::to_string, (&self.m_app,), r),
    {
        self.m_app.to_string()
    }
}

} // verus!
