//! The window: its options, its state and the windowing-system requests its
//! options and events turn into. The requests are returned as values and
//! made by the caller.

use vstd::prelude::*;

use crate::events::{
    bits_contain, mask_drag_and_drop, mask_input, mask_keyboard, mask_mouse, mask_mouse_btn,
    mask_mouse_scroll, mask_window, mask_window_close, mask_window_focus, mask_window_iconify,
    mask_window_maximize, mask_window_pos, mask_window_size, EnumEvent, EnumEventMask,
};
use crate::graphics::renderer::EnumRendererApi;
use crate::input::{EnumAction, EnumKey, EnumModifiers};

verus! {

/// Window features that can be asked for: vertical synchronization, and
/// multisampling with an optional sample count.
#[derive(Debug, Copy, Clone, PartialEq, Eq, Structural, Hash)]
pub enum EnumFeatures {
    VSync(bool),
    MSAA(Option<u32>),
}

#[derive(Debug, Copy, Clone, PartialEq, Eq, Structural, Hash)]
pub enum EnumWindowState {
    ContextReady,
    Created,
    Visible,
    Hidden,
    Closed,
}

#[derive(Debug, Copy, Clone, PartialEq, Eq, Structural, Hash)]
pub enum EnumWindowMode {
    Windowed,
    Borderless,
    Fullscreen,
}

pub open spec fn spec_window_mode_name(m: EnumWindowMode) -> Seq<char> {
    match m {
        EnumWindowMode::Windowed => "Windowed"@,
        EnumWindowMode::Borderless => "Borderless Window"@,
        EnumWindowMode::Fullscreen => "Fullscreen"@,
    }
}

impl EnumWindowMode {
    pub fn to_string(&self) -> (r: String)
        ensures
            r@ == spec_window_mode_name(*self),
    {
        let s = match self {
            EnumWindowMode::Windowed => "Windowed",
            EnumWindowMode::Borderless => "Borderless Window",
            EnumWindowMode::Fullscreen => "Fullscreen",
        };
        s.to_owned()
    }
}

#[derive(Debug, Copy, Clone, PartialEq, Eq, Structural, Hash)]
pub enum EnumWindowOption {
    WindowMode(EnumWindowMode),
    Resolution(u32, u32),
    Visible(bool),
    Resizable(bool),
    RendererApi(EnumRendererApi),
    Position(u32, u32),
    Focused(bool),
    Maximized(bool),
    Decorated(bool),
    VSync(bool),
    MSAA(Option<u32>),
    DebugApi(bool),
    RefreshRate(Option<u32>),
}

#[derive(Debug, Copy, Clone, PartialEq, Eq, Structural, Hash)]
pub enum EnumWindowError {
    NoContext,
    InitError,
    InvalidWindowOption,
    ApiError,
    InvalidEventMask,
    InvalidEventCallback,
    AlreadyInitializedError,
    VulkanIncompatibleError,
    VulkanSurfaceCreationError,
    WindowInputError,
}

/// A hint given to the windowing system before the window is created.
#[derive(Debug, Copy, Clone, PartialEq, Eq, Structural, Hash)]
pub enum EnumWindowHint {
    Visible(bool),
    Resizable(bool),
    Decorated(bool),
    /// The client API: OpenGL, or none (for Vulkan).
    ClientApi(EnumRendererApi),
    Focused(bool),
    Maximized(bool),
    Samples(Option<u32>),
    OpenGlDebugContext(bool),
    RefreshRate(Option<u32>),
}

/// An event channel of the windowing system.
#[derive(Debug, Copy, Clone, PartialEq, Eq, Structural, Hash)]
pub enum EnumPollingChannel {
    Close,
    Iconify,
    Maximize,
    Focus,
    FramebufferSize,
    Pos,
    Key,
    MouseButton,
    Scroll,
    DragAndDrop,
}

/// How the window switches between windowed and full-screen.
#[derive(Debug, Copy, Clone, PartialEq, Eq, Structural, Hash)]
pub enum EnumFullscreenChange {
    /// Back from borderless: resizable and decorated again, at its previous size.
    BorderlessToWindowed(u32, u32),
    /// Back from full-screen: decorated and resizable, at its position and previous size.
    FullscreenToWindowed(i32, i32, u32, u32),
    /// To a borderless window covering the monitor.
    ToBorderless,
    /// To full-screen on the monitor, at its position.
    ToFullscreen(i32, i32),
}

/// What handling an event asks of the windowing system.
#[derive(Debug, Copy, Clone, PartialEq, Eq, Structural, Hash)]
pub enum EnumWindowRequest {
    Nothing,
    /// The window should close.
    Close,
    Fullscreen(EnumFullscreenChange),
    /// The swap interval to set (1: wait for vertical sync).
    SwapInterval(u32),
}

/// The window: its state and the options it is created and kept with.
pub struct Window {
    pub m_state: EnumWindowState,
    pub m_vsync: bool,
    pub m_refresh_count_desired: Option<u32>,
    pub m_samples: Option<u32>,
    pub m_window_resolution: Option<(u32, u32)>,
    pub m_window_pos: Option<(i32, i32)>,
    pub m_is_windowed: bool,
    pub m_window_mode: Option<EnumWindowMode>,
    pub m_render_api: Option<EnumRendererApi>,
    /// The size before the last resize, restored when leaving full-screen.
    pub m_previous_size: (u32, u32),
}

/// The hints the windowing system starts with: hidden, decorated, resizable,
/// any refresh rate.
pub open spec fn spec_default_hints() -> Seq<EnumWindowHint> {
    seq![
        EnumWindowHint::Visible(false),
        EnumWindowHint::Decorated(true),
        EnumWindowHint::Resizable(true),
        EnumWindowHint::RefreshRate(None),
    ]
}

/// The hints an option gives, for a window in mode `mode`.
pub open spec fn spec_option_hints(option: EnumWindowOption, mode: Option<EnumWindowMode>) -> Seq<EnumWindowHint> {
    match option {
        EnumWindowOption::Visible(f) => seq![EnumWindowHint::Visible(f)],
        EnumWindowOption::Resizable(f) => if mode == Some(EnumWindowMode::Borderless) {
            seq![EnumWindowHint::Resizable(false), EnumWindowHint::Decorated(false)]
        } else if mode == Some(EnumWindowMode::Fullscreen) {
            seq![EnumWindowHint::Resizable(false)]
        } else {
            seq![EnumWindowHint::Resizable(f)]
        },
        EnumWindowOption::RendererApi(api) => seq![EnumWindowHint::ClientApi(api)],
        EnumWindowOption::Focused(f) => seq![EnumWindowHint::Focused(f)],
        EnumWindowOption::Maximized(f) => seq![EnumWindowHint::Maximized(f)],
        EnumWindowOption::Decorated(f) => seq![EnumWindowHint::Decorated(f)],
        EnumWindowOption::MSAA(s) => seq![EnumWindowHint::Samples(s)],
        EnumWindowOption::DebugApi(f) => seq![EnumWindowHint::OpenGlDebugContext(f)],
        EnumWindowOption::RefreshRate(r) => seq![EnumWindowHint::RefreshRate(r)],
        _ => Seq::empty(),
    }
}

/// The window once it takes `option`: the mode (and whether it is
/// windowed), size, position, synchronization, samples, refresh rate and API
/// are recorded; the other options only give hints.
pub open spec fn spec_window_after(w: Window, option: EnumWindowOption) -> Window {
    match option {
        EnumWindowOption::WindowMode(m) => Window {
            m_window_mode: Some(m),
            m_is_windowed: m == EnumWindowMode::Windowed,
            ..w
        },
        EnumWindowOption::Resolution(x, y) => Window { m_window_resolution: Some((x, y)), ..w },
        EnumWindowOption::Position(x, y) => Window { m_window_pos: Some((x as i32, y as i32)), ..w },
        EnumWindowOption::VSync(f) => Window { m_vsync: f, ..w },
        EnumWindowOption::MSAA(s) => Window { m_samples: s, ..w },
        EnumWindowOption::RefreshRate(r) => Window { m_refresh_count_desired: r, ..w },
        EnumWindowOption::RendererApi(a) => Window { m_render_api: Some(a), ..w },
        _ => w,
    }
}

/// The window once it takes the first `n` options in order, and the hints
/// they give, each for the mode recorded before it.
pub open spec fn spec_options_applied(w: Window, options: Seq<EnumWindowOption>, n: int) -> (Window, Seq<
    EnumWindowHint,
>)
    decreases n,
{
    if n <= 0 {
        (w, Seq::empty())
    } else {
        let (before, hints) = spec_options_applied(w, options, n - 1);
        (
            spec_window_after(before, options[n - 1]),
            hints + spec_option_hints(options[n - 1], before.m_window_mode),
        )
    }
}

/// The channels a mask of events covers, in a fixed order: the window group,
/// the input group, then each kind.
pub open spec fn spec_channels(m: u16) -> Seq<EnumPollingChannel> {
    Seq::empty()
        + spec_group(m, mask_window(), window_channels())
        + spec_group(m, mask_input(), input_channels())
        + spec_group(m, mask_window_close(), seq![EnumPollingChannel::Close])
        + spec_group(m, mask_window_iconify(), seq![EnumPollingChannel::Iconify])
        + spec_group(m, mask_window_maximize(), seq![EnumPollingChannel::Maximize])
        + spec_group(m, mask_window_focus(), seq![EnumPollingChannel::Focus])
        + spec_group(m, mask_window_size(), seq![EnumPollingChannel::FramebufferSize])
        + spec_group(m, mask_window_pos(), seq![EnumPollingChannel::Pos])
        + spec_group(m, mask_keyboard(), seq![EnumPollingChannel::Key])
        + spec_group(m, mask_mouse(), mouse_channels())
        + spec_group(m, mask_mouse_btn(), seq![EnumPollingChannel::MouseButton])
        + spec_group(m, mask_mouse_scroll(), seq![EnumPollingChannel::Scroll])
        + spec_group(m, mask_drag_and_drop(), seq![EnumPollingChannel::DragAndDrop])
}

/// The channels of the window group.
pub open spec fn window_channels() -> Seq<EnumPollingChannel> {
    seq![
        EnumPollingChannel::Close,
        EnumPollingChannel::Iconify,
        EnumPollingChannel::Maximize,
        EnumPollingChannel::Focus,
        EnumPollingChannel::FramebufferSize,
        EnumPollingChannel::Pos,
    ]
}

/// The channels of the input group.
pub open spec fn input_channels() -> Seq<EnumPollingChannel> {
    seq![
        EnumPollingChannel::Key,
        EnumPollingChannel::MouseButton,
        EnumPollingChannel::Scroll,
        EnumPollingChannel::DragAndDrop,
    ]
}

/// The channels of the mouse group.
pub open spec fn mouse_channels() -> Seq<EnumPollingChannel> {
    seq![EnumPollingChannel::MouseButton, EnumPollingChannel::Scroll]
}

/// `group` when `m` holds every bit of `flag`, else nothing.
pub open spec fn spec_group(m: u16, flag: u16, group: Seq<EnumPollingChannel>) -> Seq<EnumPollingChannel> {
    if bits_contain(m, flag) {
        group
    } else {
        Seq::empty()
    }
}

fn push_if(out: &mut Vec<EnumPollingChannel>, cond: bool, c: EnumPollingChannel)
    ensures
        final(out)@ == old(out)@ + (if cond {
            seq![c]
        } else {
            Seq::<EnumPollingChannel>::empty()
        }),
{
    let ghost before = out@;
    if cond {
        out.push(c);
    }
    assert(out@ =~= before + (if cond {
        seq![c]
    } else {
        Seq::<EnumPollingChannel>::empty()
    }));
}

fn push_window_group(out: &mut Vec<EnumPollingChannel>, cond: bool)
    ensures
        final(out)@ == old(out)@ + (if cond {
            window_channels()
        } else {
            Seq::<EnumPollingChannel>::empty()
        }),
{
    let ghost before = out@;
    if cond {
        out.push(EnumPollingChannel::Close);
        out.push(EnumPollingChannel::Iconify);
        out.push(EnumPollingChannel::Maximize);
        out.push(EnumPollingChannel::Focus);
        out.push(EnumPollingChannel::FramebufferSize);
        out.push(EnumPollingChannel::Pos);
    }
    assert(out@ =~= before + (if cond {
        window_channels()
    } else {
        Seq::<EnumPollingChannel>::empty()
    }));
}

fn push_input_group(out: &mut Vec<EnumPollingChannel>, cond: bool)
    ensures
        final(out)@ == old(out)@ + (if cond {
            input_channels()
        } else {
            Seq::<EnumPollingChannel>::empty()
        }),
{
    let ghost before = out@;
    if cond {
        out.push(EnumPollingChannel::Key);
        out.push(EnumPollingChannel::MouseButton);
        out.push(EnumPollingChannel::Scroll);
        out.push(EnumPollingChannel::DragAndDrop);
    }
    assert(out@ =~= before + (if cond {
        input_channels()
    } else {
        Seq::<EnumPollingChannel>::empty()
    }));
}

fn push_mouse_group(out: &mut Vec<EnumPollingChannel>, cond: bool)
    ensures
        final(out)@ == old(out)@ + (if cond {
            mouse_channels()
        } else {
            Seq::<EnumPollingChannel>::empty()
        }),
{
    let ghost before = out@;
    if cond {
        out.push(EnumPollingChannel::MouseButton);
        out.push(EnumPollingChannel::Scroll);
    }
    assert(out@ =~= before + (if cond {
        mouse_channels()
    } else {
        Seq::<EnumPollingChannel>::empty()
    }));
}

/// The channels the events of `event_mask` arrive on (see `spec_channels`):
/// those turned on or off when polling or callbacks are set for the mask.
pub fn polling_channels(event_mask: EnumEventMask) -> (r: Vec<EnumPollingChannel>)
    ensures
        r@ == spec_channels(event_mask@),
{
    let mut out: Vec<EnumPollingChannel> = Vec::new();
    push_window_group(&mut out, event_mask.contains(EnumEventMask::Window()));
    push_input_group(&mut out, event_mask.contains(EnumEventMask::Input()));
    push_if(&mut out, event_mask.contains(EnumEventMask::WindowClose()), EnumPollingChannel::Close);
    push_if(&mut out, event_mask.contains(EnumEventMask::WindowIconify()), EnumPollingChannel::Iconify);
    push_if(&mut out, event_mask.contains(EnumEventMask::WindowMaximize()), EnumPollingChannel::Maximize);
    push_if(&mut out, event_mask.contains(EnumEventMask::WindowFocus()), EnumPollingChannel::Focus);
    push_if(&mut out, event_mask.contains(EnumEventMask::WindowSize()), EnumPollingChannel::FramebufferSize);
    push_if(&mut out, event_mask.contains(EnumEventMask::WindowPos()), EnumPollingChannel::Pos);
    push_if(&mut out, event_mask.contains(EnumEventMask::Keyboard()), EnumPollingChannel::Key);
    push_mouse_group(&mut out, event_mask.contains(EnumEventMask::Mouse()));
    push_if(&mut out, event_mask.contains(EnumEventMask::MouseBtn()), EnumPollingChannel::MouseButton);
    push_if(&mut out, event_mask.contains(EnumEventMask::MouseScroll()), EnumPollingChannel::Scroll);
    push_if(&mut out, event_mask.contains(EnumEventMask::DragAndDrop()), EnumPollingChannel::DragAndDrop);
    out
}

/// How the window switches between windowed and full-screen (see
/// `Window::toggle_fullscreen`).
pub open spec fn spec_fullscreen_change(w: Window) -> EnumFullscreenChange {
    if !w.m_is_windowed {
        if w.m_window_mode == Some(EnumWindowMode::Borderless) {
            EnumFullscreenChange::BorderlessToWindowed(w.m_previous_size.0, w.m_previous_size.1)
        } else {
            EnumFullscreenChange::FullscreenToWindowed(
                w.m_window_pos.unwrap().0,
                w.m_window_pos.unwrap().1,
                w.m_previous_size.0,
                w.m_previous_size.1,
            )
        }
    } else if w.m_window_mode == Some(EnumWindowMode::Borderless) {
        EnumFullscreenChange::ToBorderless
    } else {
        EnumFullscreenChange::ToFullscreen(w.m_window_pos.unwrap().0, w.m_window_pos.unwrap().1)
    }
}

impl Window {
    /// A window whose context is ready: synchronized to the display, windowed,
    /// with no size, position, mode or API chosen yet, at 640 by 480 before.
    pub fn new() -> (r: Window)
        ensures
            r.m_state == EnumWindowState::ContextReady,
            r.m_vsync,
            r.m_refresh_count_desired is None,
            r.m_samples is None,
            r.m_window_resolution is None,
            r.m_window_pos is None,
            r.m_is_windowed,
            r.m_window_mode is None,
            r.m_render_api is None,
            r.m_previous_size == (640u32, 480u32),
    {
        Window {
            m_state: EnumWindowState::ContextReady,
            m_vsync: true,
            m_refresh_count_desired: None,
            m_samples: None,
            m_window_resolution: None,
            m_window_pos: None,
            m_is_windowed: true,
            m_window_mode: None,
            m_render_api: None,
            m_previous_size: (640, 480),
        }
    }

    /// The hints the windowing system starts with.
    pub fn default_hints() -> (r: Vec<EnumWindowHint>)
        ensures
            r@ == spec_default_hints(),
    {
        let r = vec![
            EnumWindowHint::Visible(false),
            EnumWindowHint::Decorated(true),
            EnumWindowHint::Resizable(true),
            EnumWindowHint::RefreshRate(None),
        ];
        assert(r@ =~= spec_default_hints());
        r
    }

    /// Takes `option`: the mode, size, position, synchronization, samples,
    /// refresh rate and API are recorded; returns the hints it gives (see
    /// `spec_option_hints`).
    pub fn window_hint(&mut self, option: EnumWindowOption) -> (r: Vec<EnumWindowHint>)
        ensures
            r@ == spec_option_hints(option, old(self).m_window_mode),
            *final(self) == spec_window_after(*old(self), option),
    {
        let mut hints: Vec<EnumWindowHint> = Vec::new();
        match option {
            EnumWindowOption::WindowMode(m) => {
                self.m_window_mode = Some(m);
                self.m_is_windowed = m == EnumWindowMode::Windowed;
            },
            EnumWindowOption::Resolution(x, y) => {
                self.m_window_resolution = Some((x, y));
            },
            EnumWindowOption::Visible(f) => {
                hints.push(EnumWindowHint::Visible(f));
            },
            EnumWindowOption::Resizable(f) => {
                if self.m_window_mode == Some(EnumWindowMode::Borderless) {
                    hints.push(EnumWindowHint::Resizable(false));
                    hints.push(EnumWindowHint::Decorated(false));
                } else if self.m_window_mode == Some(EnumWindowMode::Fullscreen) {
                    hints.push(EnumWindowHint::Resizable(false));
                } else {
                    hints.push(EnumWindowHint::Resizable(f));
                }
            },
            EnumWindowOption::RendererApi(api) => {
                hints.push(EnumWindowHint::ClientApi(api));
                self.m_render_api = Some(api);
            },
            EnumWindowOption::Position(x, y) => {
                self.m_window_pos = Some((x as i32, y as i32));
            },
            EnumWindowOption::Focused(f) => {
                hints.push(EnumWindowHint::Focused(f));
            },
            EnumWindowOption::Maximized(f) => {
                hints.push(EnumWindowHint::Maximized(f));
            },
            EnumWindowOption::Decorated(f) => {
                hints.push(EnumWindowHint::Decorated(f));
            },
            EnumWindowOption::VSync(f) => {
                self.m_vsync = f;
            },
            EnumWindowOption::MSAA(s) => {
                hints.push(EnumWindowHint::Samples(s));
                self.m_samples = s;
            },
            EnumWindowOption::DebugApi(f) => {
                hints.push(EnumWindowHint::OpenGlDebugContext(f));
            },
            EnumWindowOption::RefreshRate(r) => {
                hints.push(EnumWindowHint::RefreshRate(r));
                self.m_refresh_count_desired = r;
            },
        }
        assert(hints@ =~= spec_option_hints(option, old(self).m_window_mode));
        hints
    }

    /// Takes each option in turn (see `window_hint`); returns the hints they
    /// give, in order.
    pub fn window_hints(&mut self, options: Vec<EnumWindowOption>) -> (r: Vec<EnumWindowHint>)
        ensures
            *final(self) == spec_options_applied(*old(self), options@, options@.len() as int).0,
            r@ == spec_options_applied(*old(self), options@, options@.len() as int).1,
    {
        let mut hints: Vec<EnumWindowHint> = Vec::new();
        let mut k: usize = 0;
        while k < options.len()
            invariant
                0 <= k <= options@.len(),
                *self == spec_options_applied(*old(self), options@, k as int).0,
                hints@ == spec_options_applied(*old(self), options@, k as int).1,
            decreases options.len() - k,
        {
            let mut given = self.window_hint(options[k]);
            hints.append(&mut given);
            k = k + 1;
        }
        hints
    }

    /// Before the window is created: without an API chosen, OpenGL is taken;
    /// returns the hints that gives.
    pub fn prepare_apply(&mut self) -> (r: Vec<EnumWindowHint>)
        ensures
            old(self).m_render_api is None ==> r@ == seq![EnumWindowHint::ClientApi(EnumRendererApi::OpenGL)]
                && *final(self) == (Window { m_render_api: Some(EnumRendererApi::OpenGL), ..*old(self) }),
            old(self).m_render_api is Some ==> r@.len() == 0 && *final(self) == *old(self),
    {
        if self.m_render_api.is_none() {
            return self.window_hint(EnumWindowOption::RendererApi(EnumRendererApi::OpenGL));
        }
        Vec::new()
    }

    /// Records the window created at `pos`, `width` by `height`: windowed
    /// unless full-screen.
    pub fn record_created(&mut self, width: u32, height: u32, pos: (i32, i32))
        ensures
            *final(self) == (Window {
                m_state: EnumWindowState::Created,
                m_window_pos: Some(pos),
                m_is_windowed: old(self).m_window_mode != Some(EnumWindowMode::Fullscreen),
                m_window_resolution: Some((width, height)),
                m_previous_size: (width, height),
                ..*old(self)
            }),
    {
        self.m_previous_size = (width, height);
        self.m_state = EnumWindowState::Created;
        self.m_window_pos = Some(pos);
        self.m_is_windowed = self.m_window_mode != Some(EnumWindowMode::Fullscreen);
        self.m_window_resolution = Some((width, height));
    }

    pub fn show(&mut self)
        ensures
            *final(self) == (Window { m_state: EnumWindowState::Visible, ..*old(self) }),
    {
        self.m_state = EnumWindowState::Visible;
    }

    pub fn hide_window(&mut self)
        ensures
            *final(self) == (Window { m_state: EnumWindowState::Hidden, ..*old(self) }),
    {
        self.m_state = EnumWindowState::Hidden;
    }

    /// The window closes.
    pub fn close(&mut self)
        ensures
            *final(self) == (Window { m_state: EnumWindowState::Closed, ..*old(self) }),
    {
        self.m_state = EnumWindowState::Closed;
    }

    /// Frees the window: it ends closed.
    pub fn free(&mut self) -> (r: Result<(), EnumWindowError>)
        ensures
            r is Ok,
            *final(self) == (Window { m_state: EnumWindowState::Closed, ..*old(self) }),
    {
        if self.m_state == EnumWindowState::Closed {
            return Ok(());
        }
        self.m_state = EnumWindowState::Closed;
        Ok(())
    }

    pub fn is_closed(&self) -> (r: bool)
        ensures
            r == (self.m_state == EnumWindowState::Closed),
    {
        self.m_state == EnumWindowState::Closed
    }

    pub fn get_state(&self) -> (r: EnumWindowState)
        ensures
            r == self.m_state,
    {
        self.m_state
    }

    /// Toggles vertical synchronization; returns the swap interval to set.
    pub fn toggle_vsync(&mut self) -> (r: u32)
        ensures
            *final(self) == (Window { m_vsync: !old(self).m_vsync, ..*old(self) }),
            r == (if final(self).m_vsync {
                1u32
            } else {
                0u32
            }),
    {
        self.m_vsync = !self.m_vsync;
        if self.m_vsync {
            1
        } else {
            0
        }
    }

    /// Switches between windowed and full-screen (borderless where that is
    /// the mode): returns how.
    pub fn toggle_fullscreen(&mut self) -> (r: EnumFullscreenChange)
        requires
            old(self).m_window_pos is Some,
        ensures
            *final(self) == (Window { m_is_windowed: !old(self).m_is_windowed, ..*old(self) }),
            r == spec_fullscreen_change(*old(self)),
    {
        let pos = match self.m_window_pos {
            Some(p) => p,
            None => (0, 0),
        };
        let change = if !self.m_is_windowed {
            if self.m_window_mode == Some(EnumWindowMode::Borderless) {
                EnumFullscreenChange::BorderlessToWindowed(self.m_previous_size.0, self.m_previous_size.1)
            } else {
                EnumFullscreenChange::FullscreenToWindowed(
                    pos.0,
                    pos.1,
                    self.m_previous_size.0,
                    self.m_previous_size.1,
                )
            }
        } else if self.m_window_mode == Some(EnumWindowMode::Borderless) {
            EnumFullscreenChange::ToBorderless
        } else {
            EnumFullscreenChange::ToFullscreen(pos.0, pos.1)
        };
        self.m_is_windowed = !self.m_is_windowed;
        change
    }

    /// Handles `event`: Escape closes the window, Alt+Enter toggles
    /// full-screen, Alt+V synchronization; a resize records the new size
    /// (the old one kept as previous), a close frees and closes the window,
    /// a move records the position of a windowed window. Returns whether the
    /// event was handled and what it asks of the windowing system.
    pub fn on_event(&mut self, event: &EnumEvent) -> (r: (bool, EnumWindowRequest))
        requires
            old(self).m_window_pos is Some,
            *event is FramebufferEvent ==> old(self).m_window_resolution is Some,
        ensures
            match *event {
                EnumEvent::KeyEvent(key, action, _, mods) => if key == EnumKey::Escape && action
                    == EnumAction::Pressed {
                    r == (true, EnumWindowRequest::Close) && *final(self) == (Window {
                        m_state: EnumWindowState::Closed,
                        ..*old(self)
                    })
                } else if key == EnumKey::Enter && action == EnumAction::Pressed && mods
                    == EnumModifiers(4u8) {
                    r == (true, EnumWindowRequest::Fullscreen(spec_fullscreen_change(*old(self))))
                        && *final(self) == (Window { m_is_windowed: !old(self).m_is_windowed, ..*old(self) })
                } else if key == EnumKey::V && action == EnumAction::Pressed && mods
                    == EnumModifiers(4u8) {
                    r == (true, EnumWindowRequest::SwapInterval(
                        if old(self).m_vsync {
                            0u32
                        } else {
                            1u32
                        },
                    )) && *final(self) == (Window { m_vsync: !old(self).m_vsync, ..*old(self) })
                } else {
                    r == (false, EnumWindowRequest::Nothing) && *final(self) == *old(self)
                },
                EnumEvent::FramebufferEvent(w, h) => r == (true, EnumWindowRequest::Nothing)
                    && *final(self) == (Window {
                    m_window_resolution: Some((w, h)),
                    m_previous_size: old(self).m_window_resolution->0,
                    ..*old(self)
                }),
                EnumEvent::WindowCloseEvent(_) => r == (true, EnumWindowRequest::Nothing)
                    && *final(self) == (Window { m_state: EnumWindowState::Closed, ..*old(self) }),
                EnumEvent::WindowPosEvent(x, y) => r == (true, EnumWindowRequest::Nothing)
                    && *final(self) == (Window {
                    m_window_pos: if old(self).m_is_windowed {
                        Some((x, y))
                    } else {
                        old(self).m_window_pos
                    },
                    ..*old(self)
                }),
                _ => r == (false, EnumWindowRequest::Nothing) && *final(self) == *old(self),
            },
    {
        match event {
            EnumEvent::KeyEvent(key, action, _, mods) => {
                if *key == EnumKey::Escape && *action == EnumAction::Pressed {
                    self.close();
                    return (true, EnumWindowRequest::Close);
                }
                if *key == EnumKey::Enter && *action == EnumAction::Pressed && *mods == EnumModifiers::Alt() {
                    let change = self.toggle_fullscreen();
                    return (true, EnumWindowRequest::Fullscreen(change));
                }
                if *key == EnumKey::V && *action == EnumAction::Pressed && *mods == EnumModifiers::Alt() {
                    let interval = self.toggle_vsync();
                    return (true, EnumWindowRequest::SwapInterval(interval));
                }
                (false, EnumWindowRequest::Nothing)
            },
            EnumEvent::FramebufferEvent(w, h) => {
                if let Some(size) = self.m_window_resolution {
                    self.m_previous_size = size;
                }
                self.m_window_resolution = Some((*w, *h));
                (true, EnumWindowRequest::Nothing)
            },
            EnumEvent::WindowCloseEvent(_) => {
                let _ = self.free();
                self.m_state = EnumWindowState::Closed;
                (true, EnumWindowRequest::Nothing)
            },
            EnumEvent::WindowPosEvent(x, y) => {
                if self.m_is_windowed {
                    self.m_window_pos = Some((*x, *y));
                }
                (true, EnumWindowRequest::Nothing)
            },
            _ => (false, EnumWindowRequest::Nothing),
        }
    }

    /// The framebuffer size: the monitor's (`monitor`) unless the window is
    /// windowed, then its own size.
    pub fn get_framebuffer_size(&self, monitor: (u32, u32)) -> (r: (u32, u32))
        requires
            self.m_window_mode == Some(EnumWindowMode::Windowed) ==> self.m_window_resolution is Some,
        ensures
            r == (if self.m_window_mode != Some(EnumWindowMode::Windowed) {
                monitor
            } else {
                self.m_window_resolution->0
            }),
    {
        if self.m_window_mode != Some(EnumWindowMode::Windowed) {
            return monitor;
        }
        match self.m_window_resolution {
            Some(r) => r,
            None => monitor,
        }
    }

    /// Buffers are swapped on refresh only for an OpenGL window.
    pub fn swaps_on_refresh(&self) -> (r: bool)
        ensures
            r == (self.m_render_api == Some(EnumRendererApi::OpenGL)),
    {
        self.m_render_api == Some(EnumRendererApi::OpenGL)
    }
}

/// A flag option gives one hint, of its own kind, carrying the option's flag:
/// asking for a visible, focused, maximized or decorated window or a debug
/// context gives exactly that hint with that flag, and so does asking for a
/// resizable window that is neither borderless nor fullscreen; options
/// with different flags give different hints.
pub proof fn lemma_flag_options_keep_their_flag(f: bool, g: bool, mode: Option<EnumWindowMode>)
    ensures
        spec_option_hints(EnumWindowOption::Visible(f), mode).len() == 1,
        spec_option_hints(EnumWindowOption::Visible(f), mode)[0] matches EnumWindowHint::Visible(x) && x == f,
        spec_option_hints(EnumWindowOption::Focused(f), mode).len() == 1,
        spec_option_hints(EnumWindowOption::Focused(f), mode)[0] matches EnumWindowHint::Focused(x) && x == f,
        spec_option_hints(EnumWindowOption::Maximized(f), mode).len() == 1,
        spec_option_hints(EnumWindowOption::Maximized(f), mode)[0] matches EnumWindowHint::Maximized(x) && x == f,
        spec_option_hints(EnumWindowOption::Decorated(f), mode).len() == 1,
        spec_option_hints(EnumWindowOption::Decorated(f), mode)[0] matches EnumWindowHint::Decorated(x) && x == f,
        spec_option_hints(EnumWindowOption::DebugApi(f), mode).len() == 1,
        spec_option_hints(EnumWindowOption::DebugApi(f), mode)[0] matches EnumWindowHint::OpenGlDebugContext(x)
            && x == f,
        mode != Some(EnumWindowMode::Borderless) && mode != Some(EnumWindowMode::Fullscreen) ==> spec_option_hints(
            EnumWindowOption::Resizable(f),
            mode,
        ) =~= seq![EnumWindowHint::Resizable(f)],
        f != g ==> spec_option_hints(EnumWindowOption::Maximized(f), mode) != spec_option_hints(
            EnumWindowOption::Maximized(g),
            mode,
        ),
        f != g ==> spec_option_hints(EnumWindowOption::Visible(f), mode) != spec_option_hints(
            EnumWindowOption::Visible(g),
            mode,
        ),
        f != g ==> spec_option_hints(EnumWindowOption::Focused(f), mode) != spec_option_hints(
            EnumWindowOption::Focused(g),
            mode,
        ),
        f != g ==> spec_option_hints(EnumWindowOption::Decorated(f), mode) != spec_option_hints(
            EnumWindowOption::Decorated(g),
            mode,
        ),
        f != g ==> spec_option_hints(EnumWindowOption::DebugApi(f), mode) != spec_option_hints(
            EnumWindowOption::DebugApi(g),
            mode,
        ),
{
    if f != g {
        assert(spec_option_hints(EnumWindowOption::Maximized(f), mode)[0] != spec_option_hints(
            EnumWindowOption::Maximized(g),
            mode,
        )[0]);
        assert(spec_option_hints(EnumWindowOption::Visible(f), mode)[0] != spec_option_hints(
            EnumWindowOption::Visible(g),
            mode,
        )[0]);
        assert(spec_option_hints(EnumWindowOption::Focused(f), mode)[0] != spec_option_hints(
            EnumWindowOption::Focused(g),
            mode,
        )[0]);
        assert(spec_option_hints(EnumWindowOption::Decorated(f), mode)[0] != spec_option_hints(
            EnumWindowOption::Decorated(g),
            mode,
        )[0]);
        assert(spec_option_hints(EnumWindowOption::DebugApi(f), mode)[0] != spec_option_hints(
            EnumWindowOption::DebugApi(g),
            mode,
        )[0]);
    }
}

} // verus!
