//! The OpenGL back end's decisions: which API calls the renderer's options
//! turn into, how primitives are laid out in shared buffers and batched into
//! draw commands, and which draw call each command is issued with. The calls
//! are returned as values and made by the caller.

use vstd::prelude::*;

use crate::graphics::gl_enums::{
    GL_BACK, GL_BLEND, GL_CONSTANT_ALPHA, GL_CONSTANT_COLOR, GL_CULL_FACE, GL_DEBUG_OUTPUT,
    GL_DEBUG_OUTPUT_SYNCHRONOUS, GL_DEPTH_TEST, GL_DST_ALPHA, GL_DST_COLOR, GL_FILL,
    GL_FRAMEBUFFER_SRGB, GL_FRONT, GL_FRONT_AND_BACK, GL_LINE, GL_MULTISAMPLE, GL_ONE,
    GL_ONE_MINUS_CONSTANT_ALPHA, GL_ONE_MINUS_CONSTANT_COLOR, GL_ONE_MINUS_DST_ALPHA,
    GL_ONE_MINUS_DST_COLOR, GL_ONE_MINUS_SRC_ALPHA, GL_ONE_MINUS_SRC_COLOR, GL_POINT,
    GL_SRC_ALPHA, GL_SRC_COLOR, GL_ZERO, GL_TRIANGLES, GL_UNSIGNED_INT, GL_UNSIGNED_BYTE,
    GL_UNSIGNED_SHORT, GL_POINTS, GL_LINES, GL_LINE_STRIP, GL_LINE_LOOP, GL_LINES_ADJACENCY,
    GL_LINE_STRIP_ADJACENCY, GL_TRIANGLE_STRIP, GL_TRIANGLE_FAN, GL_TRIANGLES_ADJACENCY,
    GL_TRIANGLE_STRIP_ADJACENCY, GL_ARRAY_BUFFER, GL_INVALID_INDEX,
};
use crate::events::EnumEvent;
use crate::strings::str_eq;
use crate::graphics::buffer::{
    spec_attribute_layout, spec_layout_pointers, spec_ubo_size, EnumAttributeType, EnumBufferState, EnumUboType,
    GlAttributePointer, GlIbo, GlUbo, GlUboWrite, GlVao, GlVbo, GlVertexAttribute, C_MAT4_SIZE,
    EnumUboTypeSize, C_VBO_SIZE_LIMIT, C_IBO_SIZE_LIMIT, spec_buffer_write, GlBufferWrite,
};
use crate::assets::r_assets::{
    spec_total_indices, spec_total_vertices, EnumMaterial, EnumPrimitive, EnumVertexMemberOffset,
    Primitive, REntity, C_VERTEX_SIZE,
};
use crate::graphics::shader::{EnumShaderLanguageType, Shader};
use crate::graphics::renderer::{EnumRendererState, 
    EnumOpenGLError, EnumRendererBlendingFactor, EnumRendererCallCheckingMode, EnumRendererCull,
    EnumRendererError, EnumRendererHint, EnumRendererOptimizationMode,
    EnumRendererRenderPrimitiveAs,
};

verus! {

/// The API value of a blending factor.
pub open spec fn spec_blending_factor_gl(f: EnumRendererBlendingFactor) -> u32 {
    match f {
        EnumRendererBlendingFactor::Zero => GL_ZERO,
        EnumRendererBlendingFactor::One => GL_ONE,
        EnumRendererBlendingFactor::SrcColor => GL_SRC_COLOR,
        EnumRendererBlendingFactor::OneMinusSrcColor => GL_ONE_MINUS_SRC_COLOR,
        EnumRendererBlendingFactor::DstColor => GL_DST_COLOR,
        EnumRendererBlendingFactor::OneMinusDstColor => GL_ONE_MINUS_DST_COLOR,
        EnumRendererBlendingFactor::SrcAlpha => GL_SRC_ALPHA,
        EnumRendererBlendingFactor::OneMinusSrcAlpha => GL_ONE_MINUS_SRC_ALPHA,
        EnumRendererBlendingFactor::DstAlpha => GL_DST_ALPHA,
        EnumRendererBlendingFactor::OneMinusDstAlpha => GL_ONE_MINUS_DST_ALPHA,
        EnumRendererBlendingFactor::ConstantColor => GL_CONSTANT_COLOR,
        EnumRendererBlendingFactor::OneMinusConstantColor => GL_ONE_MINUS_CONSTANT_COLOR,
        EnumRendererBlendingFactor::ConstantAlpha => GL_CONSTANT_ALPHA,
        EnumRendererBlendingFactor::OneMinusConstantAlpha => GL_ONE_MINUS_CONSTANT_ALPHA,
    }
}

pub fn blending_factor_to_gl(f: EnumRendererBlendingFactor) -> (r: u32)
    ensures
        r == spec_blending_factor_gl(f),
{
    match f {
        EnumRendererBlendingFactor::Zero => GL_ZERO,
        EnumRendererBlendingFactor::One => GL_ONE,
        EnumRendererBlendingFactor::SrcColor => GL_SRC_COLOR,
        EnumRendererBlendingFactor::OneMinusSrcColor => GL_ONE_MINUS_SRC_COLOR,
        EnumRendererBlendingFactor::DstColor => GL_DST_COLOR,
        EnumRendererBlendingFactor::OneMinusDstColor => GL_ONE_MINUS_DST_COLOR,
        EnumRendererBlendingFactor::SrcAlpha => GL_SRC_ALPHA,
        EnumRendererBlendingFactor::OneMinusSrcAlpha => GL_ONE_MINUS_SRC_ALPHA,
        EnumRendererBlendingFactor::DstAlpha => GL_DST_ALPHA,
        EnumRendererBlendingFactor::OneMinusDstAlpha => GL_ONE_MINUS_DST_ALPHA,
        EnumRendererBlendingFactor::ConstantColor => GL_CONSTANT_COLOR,
        EnumRendererBlendingFactor::OneMinusConstantColor => GL_ONE_MINUS_CONSTANT_COLOR,
        EnumRendererBlendingFactor::ConstantAlpha => GL_CONSTANT_ALPHA,
        EnumRendererBlendingFactor::OneMinusConstantAlpha => GL_ONE_MINUS_CONSTANT_ALPHA,
    }
}

/// An API call that configures the context.
#[derive(Debug, Copy, Clone, PartialEq, Eq, Structural, Hash)]
pub enum GlCall {
    Enable(u32),
    Disable(u32),
    /// Installs the driver message callback.
    DebugMessageCallback,
    /// Lets every driver message through.
    DebugMessageControl,
    BlendFunc(u32, u32),
    CullFace(u32),
    PolygonMode(u32, u32),
    /// Sets the drawing area: origin, then width and height.
    Viewport(i32, i32, i32, i32),
}

/// The API face value of a culling mode.
pub open spec fn spec_cull_gl(c: EnumRendererCull) -> u32 {
    match c {
        EnumRendererCull::Front => GL_FRONT,
        EnumRendererCull::Back => GL_BACK,
        EnumRendererCull::FrontAndBack => GL_FRONT_AND_BACK,
    }
}

/// Culling enables face culling and culls the face the hint names: front
/// faces for `Front`, back faces for `Back`, both for `FrontAndBack`; hints
/// naming different faces give different calls.
pub proof fn lemma_cull_face_named(c: EnumRendererCull, d: EnumRendererCull, callback_loaded: bool)
    ensures
        spec_hint_calls(EnumRendererHint::CullFacing(Some(c)), callback_loaded).len() == 2,
        spec_hint_calls(EnumRendererHint::CullFacing(Some(c)), callback_loaded)[0] == GlCall::Enable(GL_CULL_FACE),
        spec_hint_calls(EnumRendererHint::CullFacing(Some(EnumRendererCull::Front)), callback_loaded)[1]
            == GlCall::CullFace(GL_FRONT),
        spec_hint_calls(EnumRendererHint::CullFacing(Some(EnumRendererCull::Back)), callback_loaded)[1]
            == GlCall::CullFace(GL_BACK),
        spec_hint_calls(EnumRendererHint::CullFacing(Some(EnumRendererCull::FrontAndBack)), callback_loaded)[1]
            == GlCall::CullFace(GL_FRONT_AND_BACK),
        c != d ==> spec_hint_calls(EnumRendererHint::CullFacing(Some(c)), callback_loaded) != spec_hint_calls(
            EnumRendererHint::CullFacing(Some(d)),
            callback_loaded,
        ),
{
    if c != d {
        assert(spec_hint_calls(EnumRendererHint::CullFacing(Some(c)), callback_loaded)[1] != spec_hint_calls(
            EnumRendererHint::CullFacing(Some(d)),
            callback_loaded,
        )[1]);
    }
}

/// Whether hint `h` is refused: multisampling asked for where the context
/// offers fewer than two samples.
pub open spec fn spec_hint_fails(h: EnumRendererHint, max_msaa: u8) -> bool {
    h matches EnumRendererHint::MSAA(Some(_)) && max_msaa < 2
}

/// The calls that apply hint `h` (one that does not fail); `callback_loaded`
/// tells whether the driver offers the message callback.
pub open spec fn spec_hint_calls(h: EnumRendererHint, callback_loaded: bool) -> Seq<GlCall> {
    match h {
        EnumRendererHint::ApiCallChecking(mode) => match mode {
            EnumRendererCallCheckingMode::NoChecking => seq![
                GlCall::Disable(GL_DEBUG_OUTPUT),
                GlCall::Disable(GL_DEBUG_OUTPUT_SYNCHRONOUS),
            ],
            EnumRendererCallCheckingMode::Sync => seq![
                GlCall::Enable(GL_DEBUG_OUTPUT),
                GlCall::Enable(GL_DEBUG_OUTPUT_SYNCHRONOUS),
            ],
            EnumRendererCallCheckingMode::Async => if callback_loaded {
                seq![
                    GlCall::Enable(GL_DEBUG_OUTPUT),
                    GlCall::Disable(GL_DEBUG_OUTPUT_SYNCHRONOUS),
                    GlCall::DebugMessageCallback,
                    GlCall::DebugMessageControl,
                ]
            } else {
                seq![GlCall::Enable(GL_DEBUG_OUTPUT), GlCall::Disable(GL_DEBUG_OUTPUT_SYNCHRONOUS)]
            },
            EnumRendererCallCheckingMode::SyncAndAsync => seq![
                GlCall::Enable(GL_DEBUG_OUTPUT),
                GlCall::Enable(GL_DEBUG_OUTPUT_SYNCHRONOUS),
                GlCall::DebugMessageCallback,
                GlCall::DebugMessageControl,
            ],
        },
        EnumRendererHint::DepthTest(enabled) => if enabled {
            seq![GlCall::Enable(GL_DEPTH_TEST)]
        } else {
            seq![GlCall::Disable(GL_DEPTH_TEST)]
        },
        EnumRendererHint::MSAA(count) => if count is Some {
            seq![GlCall::Enable(GL_MULTISAMPLE)]
        } else {
            seq![GlCall::Disable(GL_MULTISAMPLE)]
        },
        EnumRendererHint::Blending(factors) => match factors {
            Some((src, dst)) => seq![
                GlCall::Enable(GL_BLEND),
                GlCall::BlendFunc(spec_blending_factor_gl(src), spec_blending_factor_gl(dst)),
            ],
            None => seq![GlCall::Disable(GL_BLEND)],
        },
        EnumRendererHint::SRGB(enabled) => if enabled {
            seq![GlCall::Enable(GL_FRAMEBUFFER_SRGB)]
        } else {
            seq![GlCall::Disable(GL_FRAMEBUFFER_SRGB)]
        },
        EnumRendererHint::CullFacing(face) => match face {
            Some(f) => seq![GlCall::Enable(GL_CULL_FACE), GlCall::CullFace(spec_cull_gl(f))],
            None => seq![GlCall::Disable(GL_CULL_FACE)],
        },
        _ => Seq::empty(),
    }
}

/// The calls that apply the first `n` hints of `hints`, in order.
pub open spec fn spec_hints_calls(hints: Seq<EnumRendererHint>, n: int, callback_loaded: bool) -> Seq<
    GlCall,
>
    decreases n,
{
    if n <= 0 {
        Seq::empty()
    } else {
        spec_hints_calls(hints, n - 1, callback_loaded) + spec_hint_calls(hints[n - 1], callback_loaded)
    }
}

/// The batching mode after the first `n` hints, starting from `mode`.
pub open spec fn spec_batch_mode_after(
    hints: Seq<EnumRendererHint>,
    n: int,
    mode: EnumRendererOptimizationMode,
) -> EnumRendererOptimizationMode
    decreases n,
{
    if n <= 0 {
        mode
    } else {
        match hints[n - 1] {
            EnumRendererHint::Optimization(m) => m,
            _ => spec_batch_mode_after(hints, n - 1, mode),
        }
    }
}

/// The API version after the first `n` hints, starting from `version`: a
/// forced version is taken where the context's shading language reaches it.
pub open spec fn spec_version_after(
    hints: Seq<EnumRendererHint>,
    n: int,
    version: u32,
    max_shader_version: u16,
) -> u32
    decreases n,
{
    if n <= 0 {
        version
    } else {
        match hints[n - 1] {
            EnumRendererHint::ForceApiVersion(v) => if v <= max_shader_version as u32 {
                v
            } else {
                spec_version_after(hints, n - 1, version, max_shader_version)
            },
            _ => spec_version_after(hints, n - 1, version, max_shader_version),
        }
    }
}

/// The index of the first refused hint from `i` on; the length where none is.
pub open spec fn spec_first_failing(hints: Seq<EnumRendererHint>, i: int, max_msaa: u8) -> int
    decreases hints.len() - i,
{
    if i < 0 || i >= hints.len() {
        hints.len() as int
    } else if spec_hint_fails(hints[i], max_msaa) {
        i
    } else {
        spec_first_failing(hints, i + 1, max_msaa)
    }
}

proof fn lemma_first_failing(hints: Seq<EnumRendererHint>, i: int, max_msaa: u8)
    requires
        0 <= i <= hints.len(),
    ensures
        i <= spec_first_failing(hints, i, max_msaa) <= hints.len(),
        spec_first_failing(hints, i, max_msaa) < hints.len() ==> spec_hint_fails(
            hints[spec_first_failing(hints, i, max_msaa)],
            max_msaa,
        ),
        forall|j: int|
            i <= j < spec_first_failing(hints, i, max_msaa) ==> !spec_hint_fails(
                #[trigger] hints[j],
                max_msaa,
            ),
    decreases hints.len() - i,
{
    if i < hints.len() && !spec_hint_fails(hints[i], max_msaa) {
        lemma_first_failing(hints, i + 1, max_msaa);
    }
}

/// What applying the renderer's options does: the calls made, in order, and
/// whether an option was refused (the calls stop there).
#[derive(Debug)]
pub struct GlOptionsPlan {
    pub m_calls: Vec<GlCall>,
    pub m_result: Result<(), EnumRendererError>,
}

fn hint_calls(h: EnumRendererHint, callback_loaded: bool, calls: &mut Vec<GlCall>)
    ensures
        final(calls)@ == old(calls)@ + spec_hint_calls(h, callback_loaded),
{
    let ghost before = calls@;
    match h {
        EnumRendererHint::ApiCallChecking(mode) => match mode {
            EnumRendererCallCheckingMode::NoChecking => {
                calls.push(GlCall::Disable(GL_DEBUG_OUTPUT));
                calls.push(GlCall::Disable(GL_DEBUG_OUTPUT_SYNCHRONOUS));
            },
            EnumRendererCallCheckingMode::Sync => {
                calls.push(GlCall::Enable(GL_DEBUG_OUTPUT));
                calls.push(GlCall::Enable(GL_DEBUG_OUTPUT_SYNCHRONOUS));
            },
            EnumRendererCallCheckingMode::Async => {
                calls.push(GlCall::Enable(GL_DEBUG_OUTPUT));
                calls.push(GlCall::Disable(GL_DEBUG_OUTPUT_SYNCHRONOUS));
                if callback_loaded {
                    calls.push(GlCall::DebugMessageCallback);
                    calls.push(GlCall::DebugMessageControl);
                }
            },
            EnumRendererCallCheckingMode::SyncAndAsync => {
                calls.push(GlCall::Enable(GL_DEBUG_OUTPUT));
                calls.push(GlCall::Enable(GL_DEBUG_OUTPUT_SYNCHRONOUS));
                calls.push(GlCall::DebugMessageCallback);
                calls.push(GlCall::DebugMessageControl);
            },
        },
        EnumRendererHint::DepthTest(enabled) => {
            if enabled {
                calls.push(GlCall::Enable(GL_DEPTH_TEST));
            } else {
                calls.push(GlCall::Disable(GL_DEPTH_TEST));
            }
        },
        EnumRendererHint::MSAA(count) => {
            if count.is_some() {
                calls.push(GlCall::Enable(GL_MULTISAMPLE));
            } else {
                calls.push(GlCall::Disable(GL_MULTISAMPLE));
            }
        },
        EnumRendererHint::Blending(factors) => match factors {
            Some((src, dst)) => {
                calls.push(GlCall::Enable(GL_BLEND));
                calls.push(GlCall::BlendFunc(blending_factor_to_gl(src), blending_factor_to_gl(dst)));
            },
            None => {
                calls.push(GlCall::Disable(GL_BLEND));
            },
        },
        EnumRendererHint::SRGB(enabled) => {
            if enabled {
                calls.push(GlCall::Enable(GL_FRAMEBUFFER_SRGB));
            } else {
                calls.push(GlCall::Disable(GL_FRAMEBUFFER_SRGB));
            }
        },
        EnumRendererHint::CullFacing(face) => match face {
            Some(f) => {
                calls.push(GlCall::Enable(GL_CULL_FACE));
                let v = match f {
                    EnumRendererCull::Front => GL_FRONT,
                    EnumRendererCull::Back => GL_BACK,
                    EnumRendererCull::FrontAndBack => GL_FRONT_AND_BACK,
                };
                calls.push(GlCall::CullFace(v));
            },
            None => {
                calls.push(GlCall::Disable(GL_CULL_FACE));
            },
        },
        _ => {},
    }
    assert(calls@ =~= before + spec_hint_calls(h, callback_loaded));
}

/// The settings of the OpenGL context that its options change.
#[derive(Debug, Copy, Clone, PartialEq, Eq, Structural, Hash)]
pub struct GlSettings {
    pub m_version: u32,
    pub m_batch_mode: EnumRendererOptimizationMode,
}

impl GlSettings {
    /// Applies `hints` in order: each turns into its calls, a batching hint
    /// sets the batching mode, and a forced version is taken where the
    /// shading language reaches it (`max_shader_version`). Multisampling asked
    /// for where the context offers fewer than two samples (`max_msaa`) is
    /// refused with `MSAAError`, and nothing after it is applied.
    pub fn toggle_options(
        &mut self,
        hints: &Vec<EnumRendererHint>,
        max_msaa: u8,
        max_shader_version: u16,
        callback_loaded: bool,
    ) -> (r: GlOptionsPlan)
        ensures
            ({
                let f = spec_first_failing(hints@, 0, max_msaa);
                &&& r.m_calls@ == spec_hints_calls(hints@, f, callback_loaded)
                &&& r.m_result is Err <==> f < hints@.len()
                &&& r.m_result is Err ==> r.m_result == Err::<(), EnumRendererError>(
                    EnumRendererError::OpenGLError(EnumOpenGLError::MSAAError),
                )
                &&& final(self).m_batch_mode == spec_batch_mode_after(
                    hints@,
                    f,
                    old(self).m_batch_mode,
                )
                &&& final(self).m_version == spec_version_after(
                    hints@,
                    f,
                    old(self).m_version,
                    max_shader_version,
                )
            }),
    {
        proof {
            lemma_first_failing(hints@, 0, max_msaa);
        }
        let mut calls: Vec<GlCall> = Vec::new();
        let mut i: usize = 0;
        while i < hints.len()
            invariant
                0 <= i <= hints.len(),
                i <= spec_first_failing(hints@, 0, max_msaa),
                spec_first_failing(hints@, 0, max_msaa) <= hints.len(),
                spec_first_failing(hints@, 0, max_msaa) < hints.len() ==> spec_hint_fails(
                    hints@[spec_first_failing(hints@, 0, max_msaa)],
                    max_msaa,
                ),
                forall|j: int|
                    0 <= j < spec_first_failing(hints@, 0, max_msaa) ==> !spec_hint_fails(
                        #[trigger] hints@[j],
                        max_msaa,
                    ),
                calls@ == spec_hints_calls(hints@, i as int, callback_loaded),
                self.m_batch_mode == spec_batch_mode_after(hints@, i as int, old(self).m_batch_mode),
                self.m_version == spec_version_after(
                    hints@,
                    i as int,
                    old(self).m_version,
                    max_shader_version,
                ),
            decreases hints.len() - i,
        {
            let h = hints[i];
            match h {
                EnumRendererHint::MSAA(Some(_)) => {
                    if max_msaa < 2 {
                        return GlOptionsPlan {
                            m_calls: calls,
                            m_result: Err(EnumRendererError::OpenGLError(EnumOpenGLError::MSAAError)),
                        };
                    }
                },
                EnumRendererHint::Optimization(mode) => {
                    self.m_batch_mode = mode;
                },
                EnumRendererHint::ForceApiVersion(v) => {
                    if v <= max_shader_version as u32 {
                        self.m_version = v;
                    }
                },
                _ => {},
            }
            hint_calls(h, callback_loaded, &mut calls);
            i = i + 1;
        }
        GlOptionsPlan { m_calls: calls, m_result: Ok(()) }
    }
}

/// How API calls are checked, as a single option of the renderer gives it.
#[derive(Debug, Copy, Clone, PartialEq, Eq, Structural, Hash)]
pub enum EnumCallCheckingType {
    NoChecking,
    Async,
    Sync,
    SyncAndAsync,
}

/// The lifecycle of a renderer configured option by option.
#[derive(Debug, Copy, Clone, PartialEq, Eq, Structural, Hash)]
pub enum EnumState {
    NotCreated,
    Created,
    Deleted,
}

#[derive(Debug, Copy, Clone, PartialEq, Eq, Structural, Hash)]
pub enum EnumApi {
    OpenGL,
    Vulkan,
}

/// One option of the renderer, toggled on its own; faces and blending
/// factors are given as API values.
#[derive(Debug, Copy, Clone, PartialEq, Eq, Structural, Hash)]
pub enum EnumRendererOption {
    ApiCallChecking(EnumCallCheckingType),
    DepthTest(bool),
    CullFacing(Option<i64>),
    Wireframe(bool),
    MSAA(Option<u8>),
    SRGB(bool),
    Blending(bool, i64, i64),
}

/// The calls that toggle `option`, or `MSAAError` for multisampling where
/// the context offers fewer than two samples.
pub open spec fn spec_option_calls(option: EnumRendererOption, max_msaa: u8, callback_loaded: bool) -> Result<
    Seq<GlCall>,
    EnumRendererError,
> {
    match option {
        EnumRendererOption::ApiCallChecking(mode) => Ok(
            match mode {
                EnumCallCheckingType::NoChecking => spec_hint_calls(
                    EnumRendererHint::ApiCallChecking(EnumRendererCallCheckingMode::NoChecking),
                    callback_loaded,
                ),
                EnumCallCheckingType::Sync => spec_hint_calls(
                    EnumRendererHint::ApiCallChecking(EnumRendererCallCheckingMode::Sync),
                    callback_loaded,
                ),
                EnumCallCheckingType::Async => spec_hint_calls(
                    EnumRendererHint::ApiCallChecking(EnumRendererCallCheckingMode::Async),
                    callback_loaded,
                ),
                EnumCallCheckingType::SyncAndAsync => spec_hint_calls(
                    EnumRendererHint::ApiCallChecking(EnumRendererCallCheckingMode::SyncAndAsync),
                    callback_loaded,
                ),
            },
        ),
        EnumRendererOption::DepthTest(b) => Ok(spec_hint_calls(EnumRendererHint::DepthTest(b), callback_loaded)),
        EnumRendererOption::MSAA(count) => if count is Some && max_msaa < 2 {
            Err(EnumRendererError::OpenGLError(EnumOpenGLError::MSAAError))
        } else {
            Ok(spec_hint_calls(EnumRendererHint::MSAA(count), callback_loaded))
        },
        EnumRendererOption::Blending(enabled, s, d) => Ok(
            if enabled {
                seq![GlCall::Enable(GL_BLEND), GlCall::BlendFunc(s as u32, d as u32)]
            } else {
                seq![GlCall::Disable(GL_BLEND)]
            },
        ),
        EnumRendererOption::Wireframe(enabled) => Ok(
            seq![GlCall::PolygonMode(GL_FRONT_AND_BACK, if enabled { GL_LINE } else { GL_FILL })],
        ),
        EnumRendererOption::SRGB(b) => Ok(spec_hint_calls(EnumRendererHint::SRGB(b), callback_loaded)),
        EnumRendererOption::CullFacing(face) => Ok(
            match face {
                Some(f) => seq![GlCall::Enable(GL_CULL_FACE), GlCall::CullFace(f as u32)],
                None => seq![GlCall::Disable(GL_CULL_FACE)],
            },
        ),
    }
}

/// The calls that toggle `option` (see `spec_option_calls`).
pub fn toggle_option(option: EnumRendererOption, max_msaa: u8, callback_loaded: bool) -> (r: Result<
    Vec<GlCall>,
    EnumRendererError,
>)
    ensures
        match spec_option_calls(option, max_msaa, callback_loaded) {
            Ok(c) => r matches Ok(v) && v@ == c,
            Err(e) => r == Err::<Vec<GlCall>, EnumRendererError>(e),
        },
{
    let mut calls: Vec<GlCall> = Vec::new();
    match option {
        EnumRendererOption::ApiCallChecking(mode) => {
            let m = match mode {
                EnumCallCheckingType::NoChecking => EnumRendererCallCheckingMode::NoChecking,
                EnumCallCheckingType::Sync => EnumRendererCallCheckingMode::Sync,
                EnumCallCheckingType::Async => EnumRendererCallCheckingMode::Async,
                EnumCallCheckingType::SyncAndAsync => EnumRendererCallCheckingMode::SyncAndAsync,
            };
            hint_calls(EnumRendererHint::ApiCallChecking(m), callback_loaded, &mut calls);
        },
        EnumRendererOption::DepthTest(b) => {
            hint_calls(EnumRendererHint::DepthTest(b), callback_loaded, &mut calls);
        },
        EnumRendererOption::MSAA(count) => {
            if count.is_some() && max_msaa < 2 {
                return Err(EnumRendererError::OpenGLError(EnumOpenGLError::MSAAError));
            }
            hint_calls(EnumRendererHint::MSAA(count), callback_loaded, &mut calls);
        },
        EnumRendererOption::Blending(enabled, s, d) => {
            if enabled {
                calls.push(GlCall::Enable(GL_BLEND));
                calls.push(GlCall::BlendFunc(s as u32, d as u32));
            } else {
                calls.push(GlCall::Disable(GL_BLEND));
            }
        },
        EnumRendererOption::Wireframe(enabled) => {
            let mode = if enabled {
                GL_LINE
            } else {
                GL_FILL
            };
            calls.push(GlCall::PolygonMode(GL_FRONT_AND_BACK, mode));
        },
        EnumRendererOption::SRGB(b) => {
            hint_calls(EnumRendererHint::SRGB(b), callback_loaded, &mut calls);
        },
        EnumRendererOption::CullFacing(face) => {
            match face {
                Some(f) => {
                    calls.push(GlCall::Enable(GL_CULL_FACE));
                    calls.push(GlCall::CullFace(f as u32));
                },
                None => {
                    calls.push(GlCall::Disable(GL_CULL_FACE));
                },
            }
        },
    }
    assert(calls@ =~= spec_option_calls(option, max_msaa, callback_loaded)->Ok_0);
    Ok(calls)
}

/// The polygon mode a primitive drawing mode is set with, and whether the
/// solid-wireframe flag is raised.
pub open spec fn spec_primitive_mode_calls(mode: EnumRendererRenderPrimitiveAs) -> (GlCall, bool) {
    match mode {
        EnumRendererRenderPrimitiveAs::Filled => (GlCall::PolygonMode(GL_FRONT_AND_BACK, GL_FILL), false),
        EnumRendererRenderPrimitiveAs::Points => (GlCall::PolygonMode(GL_FRONT_AND_BACK, GL_POINT), false),
        EnumRendererRenderPrimitiveAs::Wireframe => (GlCall::PolygonMode(GL_FRONT_AND_BACK, GL_LINE), false),
        EnumRendererRenderPrimitiveAs::SolidWireframe => (
            GlCall::PolygonMode(GL_FRONT_AND_BACK, GL_FILL),
            true,
        ),
    }
}

/// The call that switches primitives to `mode`, and the value of the
/// solid-wireframe flag then written for them.
pub fn primitive_mode_calls(mode: EnumRendererRenderPrimitiveAs) -> (r: (GlCall, bool))
    ensures
        r == spec_primitive_mode_calls(mode),
{
    match mode {
        EnumRendererRenderPrimitiveAs::Filled => (GlCall::PolygonMode(GL_FRONT_AND_BACK, GL_FILL), false),
        EnumRendererRenderPrimitiveAs::Points => (GlCall::PolygonMode(GL_FRONT_AND_BACK, GL_POINT), false),
        EnumRendererRenderPrimitiveAs::Wireframe => (GlCall::PolygonMode(GL_FRONT_AND_BACK, GL_LINE), false),
        EnumRendererRenderPrimitiveAs::SolidWireframe => (
            GlCall::PolygonMode(GL_FRONT_AND_BACK, GL_FILL),
            true,
        ),
    }
}

/// Where one primitive lies in its command's shared buffers.
#[derive(Debug, Copy, Clone, PartialEq, Eq, Structural, Hash)]
pub struct GlPrimitiveInfo {
    pub m_uuid: u64,
    pub m_ibo_offset: isize,
    pub m_vbo_count: i32,
    pub m_ibo_count: i32,
    pub m_base_vertex: i32,
    pub m_base_index: i32,
    pub m_entity_offset: usize,
    pub m_visible: bool,
}

/// The primitives drawn with one shader, and the buffers they live in.
#[derive(Debug, Clone)]
pub struct GlDrawCommandInfo {
    pub m_linked_shader: u32,
    pub m_vao_index: usize,
    pub m_vbo_index: usize,
    pub m_ibo_index: usize,
    pub m_primitives: Vec<GlPrimitiveInfo>,
}

/// The number of vertices of the first `k` sub-meshes (vertex count, index count).
pub open spec fn spec_vertex_sum(counts: Seq<(usize, usize)>, k: int) -> int
    decreases k,
{
    if k <= 0 {
        0
    } else {
        spec_vertex_sum(counts, k - 1) + counts[k - 1].0
    }
}

/// The number of indices of the first `k` sub-meshes.
pub open spec fn spec_index_sum(counts: Seq<(usize, usize)>, k: int) -> int
    decreases k,
{
    if k <= 0 {
        0
    } else {
        spec_index_sum(counts, k - 1) + counts[k - 1].1
    }
}

/// The vertices held by the first `n` primitives of `p`.
pub open spec fn spec_primitive_vertices(p: Seq<GlPrimitiveInfo>, n: int) -> int
    decreases n,
{
    if n <= 0 {
        0
    } else {
        spec_primitive_vertices(p, n - 1) + p[n - 1].m_vbo_count
    }
}

/// Whether every primitive of `p` has nonnegative counts and offset.
pub open spec fn spec_primitives_wf(p: Seq<GlPrimitiveInfo>) -> bool {
    forall|i: int|
        0 <= i < p.len() ==> (#[trigger] p[i]).m_vbo_count >= 0 && p[i].m_ibo_count >= 0
            && p[i].m_ibo_offset >= 0
}

/// Where the primitives of a new entity start when they join the earlier
/// primitives `prev` of a command: after their vertices, after the last one's
/// indices (4 bytes each), and after their entity slots.
pub open spec fn spec_join_start(prev: Seq<GlPrimitiveInfo>) -> (int, int, int) {
    let base = spec_primitive_vertices(prev, prev.len() as int);
    let offset = if prev.len() > 0 {
        prev.last().m_ibo_offset + prev.last().m_ibo_count * 4
    } else {
        0
    };
    (base, offset, prev.len() as int)
}

/// The `k`-th primitive of an entity `uuid` made of sub-meshes `counts`,
/// starting at `start` (first vertex, first index byte, first entity slot):
/// its vertices follow those of the earlier sub-meshes and its indices their
/// indices, while all share the first vertex as base index. It starts hidden.
pub open spec fn spec_planned_primitive(
    uuid: u64,
    counts: Seq<(usize, usize)>,
    start: (int, int, int),
    k: int,
) -> GlPrimitiveInfo {
    GlPrimitiveInfo {
        m_uuid: uuid,
        m_ibo_offset: (start.1 + 4 * spec_index_sum(counts, k)) as isize,
        m_vbo_count: counts[k].0 as i32,
        m_ibo_count: counts[k].1 as i32,
        m_base_vertex: (start.0 + spec_vertex_sum(counts, k)) as i32,
        m_base_index: start.0 as i32,
        m_entity_offset: (start.2 + k) as usize,
        m_visible: false,
    }
}

proof fn lemma_sums_grow(counts: Seq<(usize, usize)>, j: int, k: int)
    requires
        0 <= j <= k <= counts.len(),
    ensures
        0 <= spec_vertex_sum(counts, j) <= spec_vertex_sum(counts, k),
        0 <= spec_index_sum(counts, j) <= spec_index_sum(counts, k),
    decreases k - j,
{
    if j < k {
        lemma_sums_grow(counts, j, k - 1);
    } else {
        lemma_sums_nonneg(counts, k);
    }
}

proof fn lemma_sums_nonneg(counts: Seq<(usize, usize)>, k: int)
    ensures
        spec_vertex_sum(counts, k) >= 0,
        spec_index_sum(counts, k) >= 0,
    decreases k,
{
    if k > 0 {
        lemma_sums_nonneg(counts, k - 1);
    }
}

proof fn lemma_primitive_vertices_grow(p: Seq<GlPrimitiveInfo>, n: int)
    requires
        spec_primitives_wf(p),
        0 <= n <= p.len(),
    ensures
        0 <= spec_primitive_vertices(p, n) <= spec_primitive_vertices(p, p.len() as int),
    decreases p.len() - n,
{
    lemma_primitive_vertices_nonneg(p, n);
    if n < p.len() {
        assert(p[n].m_vbo_count >= 0);
        lemma_primitive_vertices_grow(p, n + 1);
    }
}

proof fn lemma_primitive_vertices_nonneg(p: Seq<GlPrimitiveInfo>, n: int)
    requires
        spec_primitives_wf(p),
        0 <= n <= p.len(),
    ensures
        spec_primitive_vertices(p, n) >= 0,
    decreases n,
{
    if n > 0 {
        lemma_primitive_vertices_nonneg(p, n - 1);
    }
}

/// The list of draw commands and the arrays the multi-draw calls read.
#[derive(Debug, Clone)]
pub struct GlRendererCommands {
    pub m_draw_commands: Vec<GlDrawCommandInfo>,
    pub m_draw_command_index_count_array: Vec<i32>,
    pub m_draw_command_index_offset_array: Vec<isize>,
    pub m_draw_command_vertex_count_array: Vec<i32>,
    pub m_draw_command_vertex_offset_array: Vec<i32>,
    pub m_draw_command_base_indices: Vec<i32>,
}

/// An indirect draw command: of vertices (`m_first` the first vertex) or of
/// indices (`m_first` the first index).
#[derive(Debug, Copy, Clone, PartialEq, Eq, Structural, Hash)]
pub struct GlIndirectCommand {
    pub m_count: u32,
    pub m_instance_count: u32,
    pub m_first: u32,
    pub m_first_vertex: i32,
    pub m_first_instance: u32,
    pub m_indexed: bool,
}

/// Whether draws go through indirect commands kept on the GPU: the API
/// version must be 4.3 or later, with draw calls minimized.
pub open spec fn spec_indirect(version: u32, mode: EnumRendererOptimizationMode) -> bool {
    version >= 430 && mode == EnumRendererOptimizationMode::MinimizeDrawCalls
}

/// The indirect command that draws primitive `p`.
pub open spec fn spec_indirect_command(p: GlPrimitiveInfo) -> GlIndirectCommand {
    if p.m_ibo_count == 0 {
        GlIndirectCommand {
            m_count: p.m_vbo_count as u32,
            m_instance_count: 1,
            m_first: p.m_base_vertex as u32,
            m_first_vertex: 0,
            m_first_instance: 0,
            m_indexed: false,
        }
    } else {
        GlIndirectCommand {
            m_count: p.m_ibo_count as u32,
            m_instance_count: 1,
            m_first: (p.m_ibo_offset / 4) as u32,
            m_first_vertex: 0,
            m_first_instance: 0,
            m_indexed: true,
        }
    }
}

/// The indirect commands of the first `n` primitives of `p` that are indexed
/// (`indexed`) or not.
pub open spec fn spec_indirect_commands(p: Seq<GlPrimitiveInfo>, n: int, indexed: bool) -> Seq<
    GlIndirectCommand,
>
    decreases n,
{
    if n <= 0 {
        Seq::empty()
    } else if (p[n - 1].m_ibo_count != 0) == indexed {
        spec_indirect_commands(p, n - 1, indexed).push(spec_indirect_command(p[n - 1]))
    } else {
        spec_indirect_commands(p, n - 1, indexed)
    }
}

/// The fields of the first `n` primitives of `p` that are indexed
/// (`indexed`) or not, picked by `f`.
pub open spec fn spec_field_of(
    p: Seq<GlPrimitiveInfo>,
    n: int,
    indexed: bool,
    f: spec_fn(GlPrimitiveInfo) -> int,
) -> Seq<int>
    decreases n,
{
    if n <= 0 {
        Seq::empty()
    } else if (p[n - 1].m_ibo_count != 0) == indexed {
        spec_field_of(p, n - 1, indexed, f).push(f(p[n - 1]))
    } else {
        spec_field_of(p, n - 1, indexed, f)
    }
}

/// The fields of a primitive that the draw arrays record.
pub open spec fn spec_vbo_count_of() -> spec_fn(GlPrimitiveInfo) -> int {
    |x: GlPrimitiveInfo| x.m_vbo_count as int
}

pub open spec fn spec_base_vertex_of() -> spec_fn(GlPrimitiveInfo) -> int {
    |x: GlPrimitiveInfo| x.m_base_vertex as int
}

pub open spec fn spec_ibo_count_of() -> spec_fn(GlPrimitiveInfo) -> int {
    |x: GlPrimitiveInfo| x.m_ibo_count as int
}

pub open spec fn spec_ibo_offset_of() -> spec_fn(GlPrimitiveInfo) -> int {
    |x: GlPrimitiveInfo| x.m_ibo_offset as int
}

pub open spec fn spec_base_index_of() -> spec_fn(GlPrimitiveInfo) -> int {
    |x: GlPrimitiveInfo| x.m_base_index as int
}

/// Whether some primitive of `p` is indexed.
pub open spec fn spec_any_indexed(p: Seq<GlPrimitiveInfo>) -> bool {
    exists|i: int| 0 <= i < p.len() && (#[trigger] p[i]).m_ibo_count != 0
}

/// The values of an integer sequence, widened.
pub open spec fn spec_widen_i32(s: Seq<i32>) -> Seq<int> {
    s.map_values(|x: i32| x as int)
}

pub open spec fn spec_widen_isize(s: Seq<isize>) -> Seq<int> {
    s.map_values(|x: isize| x as int)
}

impl GlRendererCommands {
    pub fn new() -> (r: GlRendererCommands)
        ensures
            r.m_draw_commands@.len() == 0,
            r.m_draw_command_index_count_array@.len() == 0,
            r.m_draw_command_index_offset_array@.len() == 0,
            r.m_draw_command_vertex_count_array@.len() == 0,
            r.m_draw_command_vertex_offset_array@.len() == 0,
            r.m_draw_command_base_indices@.len() == 0,
    {
        GlRendererCommands {
            m_draw_commands: Vec::new(),
            m_draw_command_index_count_array: Vec::new(),
            m_draw_command_index_offset_array: Vec::new(),
            m_draw_command_vertex_count_array: Vec::new(),
            m_draw_command_vertex_offset_array: Vec::new(),
            m_draw_command_base_indices: Vec::new(),
        }
    }

    /// The first command drawn with `shader_id`, if any.
    pub fn find_shader(&self, shader_id: u32) -> (r: Option<usize>)
        ensures
            r matches Some(i) ==> i < self.m_draw_commands@.len()
                && self.m_draw_commands@[i as int].m_linked_shader == shader_id && forall|j: int|
                0 <= j < i ==> (#[trigger] self.m_draw_commands@[j]).m_linked_shader != shader_id,
            r is None ==> forall|j: int|
                0 <= j < self.m_draw_commands@.len() ==> (#[trigger] self.m_draw_commands@[j]).m_linked_shader
                    != shader_id,
    {
        let mut i: usize = 0;
        while i < self.m_draw_commands.len()
            invariant
                0 <= i <= self.m_draw_commands.len(),
                forall|j: int|
                    0 <= j < i ==> (#[trigger] self.m_draw_commands@[j]).m_linked_shader != shader_id,
            decreases self.m_draw_commands.len() - i,
        {
            if self.m_draw_commands[i].m_linked_shader == shader_id {
                return Some(i);
            }
            i = i + 1;
        }
        None
    }

    /// The last command drawn with `shader_id` that holds a primitive of an
    /// entity other than `uuid`: the new entity's primitives join after it.
    pub fn previous_similar(&self, shader_id: u32, uuid: u64) -> (r: Option<usize>)
        ensures
            r matches Some(i) ==> i < self.m_draw_commands@.len() && spec_similar(
                self.m_draw_commands@[i as int],
                shader_id,
                uuid,
            ) && forall|j: int|
                i < j < self.m_draw_commands@.len() ==> !spec_similar(
                    #[trigger] self.m_draw_commands@[j],
                    shader_id,
                    uuid,
                ),
            r is None ==> forall|j: int|
                0 <= j < self.m_draw_commands@.len() ==> !spec_similar(
                    #[trigger] self.m_draw_commands@[j],
                    shader_id,
                    uuid,
                ),
    {
        let mut i: usize = self.m_draw_commands.len();
        while i > 0
            invariant
                0 <= i <= self.m_draw_commands.len(),
                forall|j: int|
                    i <= j < self.m_draw_commands@.len() ==> !spec_similar(
                        #[trigger] self.m_draw_commands@[j],
                        shader_id,
                        uuid,
                    ),
            decreases i,
        {
            let c = &self.m_draw_commands[i - 1];
            if c.m_linked_shader == shader_id {
                let mut k: usize = 0;
                let mut other = false;
                while k < c.m_primitives.len()
                    invariant
                        0 <= k <= c.m_primitives.len(),
                        other <==> exists|m: int|
                            0 <= m < k && (#[trigger] c.m_primitives@[m]).m_uuid != uuid,
                    decreases c.m_primitives.len() - k,
                {
                    if c.m_primitives[k].m_uuid != uuid {
                        other = true;
                    }
                    k = k + 1;
                }
                if other {
                    return Some(i - 1);
                }
            }
            i = i - 1;
        }
        None
    }
}

/// Whether command `c` is drawn with `shader_id` and holds a primitive of an
/// entity other than `uuid`.
pub open spec fn spec_similar(c: GlDrawCommandInfo, shader_id: u32, uuid: u64) -> bool {
    c.m_linked_shader == shader_id && exists|m: int|
        0 <= m < c.m_primitives@.len() && (#[trigger] c.m_primitives@[m]).m_uuid != uuid
}

/// Lays out the primitives of entity `uuid`, made of sub-meshes `counts`
/// (vertex count, index count), drawn with `shader_id`. Where earlier
/// primitives of the shader (`previous`) are shared, the new ones follow them
/// in the same buffers; otherwise they start the buffers at `indices` (vertex
/// array, vertex buffer, index buffer).
pub fn plan_primitives(
    previous: Option<&GlDrawCommandInfo>,
    indices: (usize, usize, usize),
    shader_id: u32,
    uuid: u64,
    counts: &Vec<(usize, usize)>,
) -> (r: GlDrawCommandInfo)
    requires
        previous matches Some(c) ==> spec_primitives_wf(c.m_primitives@),
        previous matches Some(c) ==> (c.m_primitives@.len() > 0 ==> c.m_primitives@.last().m_ibo_count * 4
            <= i32::MAX),
        ({
            let start = match previous {
                Some(c) => spec_join_start(c.m_primitives@),
                None => (0int, 0int, 0int),
            };
            &&& start.0 + spec_vertex_sum(counts@, counts@.len() as int) <= i32::MAX
            &&& start.1 + 4 * spec_index_sum(counts@, counts@.len() as int) <= i32::MAX
            &&& start.2 + counts@.len() <= usize::MAX
        }),
    ensures
        ({
            let start = match previous {
                Some(c) => spec_join_start(c.m_primitives@),
                None => (0int, 0int, 0int),
            };
            &&& r.m_linked_shader == shader_id
            &&& r.m_vao_index == (match previous {
                Some(c) => c.m_vao_index,
                None => indices.0,
            })
            &&& r.m_vbo_index == (match previous {
                Some(c) => c.m_vbo_index,
                None => indices.1,
            })
            &&& r.m_ibo_index == (match previous {
                Some(c) => c.m_ibo_index,
                None => indices.2,
            })
            &&& r.m_primitives@.len() == counts@.len()
            &&& forall|k: int|
                0 <= k < counts@.len() ==> #[trigger] r.m_primitives@[k] == spec_planned_primitive(
                    uuid,
                    counts@,
                    start,
                    k,
                )
            &&& spec_primitives_wf(r.m_primitives@)
        }),
{
    let mut vao_index = indices.0;
    let mut vbo_index = indices.1;
    let mut ibo_index = indices.2;
    let mut base_vertex: i32 = 0;
    let mut ibo_offset: isize = 0;
    let mut last_primitive_offset: usize = 0;
    let ghost start = match previous {
        Some(c) => spec_join_start(c.m_primitives@),
        None => (0int, 0int, 0int),
    };
    proof {
        lemma_sums_nonneg(counts@, counts@.len() as int);
    }
    match previous {
        Some(c) => {
            vao_index = c.m_vao_index;
            vbo_index = c.m_vbo_index;
            ibo_index = c.m_ibo_index;
            last_primitive_offset = c.m_primitives.len();
            let n = c.m_primitives.len();
            if n > 0 {
                let last = c.m_primitives[n - 1];
                ibo_offset = last.m_ibo_offset + (last.m_ibo_count * 4) as isize;
            }
            let mut j: usize = 0;
            while j < n
                invariant
                    0 <= j <= n == c.m_primitives@.len(),
                    spec_primitives_wf(c.m_primitives@),
                    base_vertex == spec_primitive_vertices(c.m_primitives@, j as int),
                    spec_primitive_vertices(c.m_primitives@, n as int) <= i32::MAX,
                decreases n - j,
            {
                proof {
                    lemma_primitive_vertices_grow(c.m_primitives@, j + 1);
                }
                base_vertex = base_vertex + c.m_primitives[j].m_vbo_count;
                j = j + 1;
            }
        },
        None => {},
    }
    let base_index = base_vertex;
    proof {
        if let Some(c) = previous {
            lemma_primitive_vertices_nonneg(c.m_primitives@, c.m_primitives@.len() as int);
            if c.m_primitives@.len() > 0 {
                assert(c.m_primitives@.last() == c.m_primitives@[c.m_primitives@.len() - 1]);
            }
        }
    }
    assert(base_vertex == start.0 && ibo_offset == start.1 && last_primitive_offset == start.2);
    let mut primitives: Vec<GlPrimitiveInfo> = Vec::new();
    let mut k: usize = 0;
    while k < counts.len()
        invariant
            0 <= k <= counts.len(),
            base_index == start.0,
            0 <= start.0,
            0 <= start.1,
            last_primitive_offset == start.2,
            base_vertex == start.0 + spec_vertex_sum(counts@, k as int),
            ibo_offset == start.1 + 4 * spec_index_sum(counts@, k as int),
            start.0 + spec_vertex_sum(counts@, counts@.len() as int) <= i32::MAX,
            start.1 + 4 * spec_index_sum(counts@, counts@.len() as int) <= i32::MAX,
            start.2 + counts@.len() <= usize::MAX,
            primitives@.len() == k,
            forall|m: int|
                0 <= m < k ==> #[trigger] primitives@[m] == spec_planned_primitive(
                    uuid,
                    counts@,
                    start,
                    m,
                ),
            spec_primitives_wf(primitives@),
        decreases counts.len() - k,
    {
        proof {
            lemma_sums_grow(counts@, k + 1, counts@.len() as int);
        }
        let (vertex_count, index_count) = counts[k];
        proof {
            lemma_sums_nonneg(counts@, k as int);
            assert(spec_vertex_sum(counts@, k + 1) == spec_vertex_sum(counts@, k as int) + vertex_count);
            assert(spec_index_sum(counts@, k + 1) == spec_index_sum(counts@, k as int) + index_count);
        }
        let p = GlPrimitiveInfo {
            m_uuid: uuid,
            m_ibo_offset: ibo_offset,
            m_vbo_count: vertex_count as i32,
            m_ibo_count: index_count as i32,
            m_base_vertex: base_vertex,
            m_base_index: base_index,
            m_entity_offset: last_primitive_offset + k,
            m_visible: false,
        };
        primitives.push(p);
        base_vertex = base_vertex + vertex_count as i32;
        ibo_offset = ibo_offset + (index_count * 4) as isize;
        k = k + 1;
    }
    GlDrawCommandInfo {
        m_linked_shader: shader_id,
        m_vao_index: vao_index,
        m_vbo_index: vbo_index,
        m_ibo_index: ibo_index,
        m_primitives: primitives,
    }
}


/// What a command's primitives add to the indirect command buffer, and the
/// size of the indirect buffer to create first, where there is none yet.
#[derive(Debug, Clone)]
pub struct GlCommandData {
    pub m_new_indirect_buffer: Option<usize>,
    pub m_indirect: Vec<GlIndirectCommand>,
}

/// The size of an indirect command of indices, and of vertices.
pub const C_ELEMENTS_INDIRECT_SIZE: usize = 20;
pub const C_ARRAYS_INDIRECT_SIZE: usize = 16;

/// A primitive mode of the draw calls.
#[derive(Debug, Copy, Clone, PartialEq, Eq, Structural, Hash)]
pub enum EnumGlPrimitiveMode {
    Point,
    Line,
    LineStrip,
    LineLoop,
    LineAdjacency,
    LineStripAdjacency,
    Triangle,
    TriangleStrip,
    TriangleFan,
    TriangleAdjacency,
    TriangleStripAdjacency,
}

pub open spec fn spec_primitive_mode_gl(m: EnumGlPrimitiveMode) -> u32 {
    match m {
        EnumGlPrimitiveMode::Point => GL_POINTS,
        EnumGlPrimitiveMode::Line => GL_LINES,
        EnumGlPrimitiveMode::LineStrip => GL_LINE_STRIP,
        EnumGlPrimitiveMode::LineLoop => GL_LINE_LOOP,
        EnumGlPrimitiveMode::LineAdjacency => GL_LINES_ADJACENCY,
        EnumGlPrimitiveMode::LineStripAdjacency => GL_LINE_STRIP_ADJACENCY,
        EnumGlPrimitiveMode::Triangle => GL_TRIANGLES,
        EnumGlPrimitiveMode::TriangleStrip => GL_TRIANGLE_STRIP,
        EnumGlPrimitiveMode::TriangleFan => GL_TRIANGLE_FAN,
        EnumGlPrimitiveMode::TriangleAdjacency => GL_TRIANGLES_ADJACENCY,
        EnumGlPrimitiveMode::TriangleStripAdjacency => GL_TRIANGLE_STRIP_ADJACENCY,
    }
}

impl EnumGlPrimitiveMode {
    /// The API value of the mode.
    pub fn to_gl(&self) -> (r: u32)
        ensures
            r == spec_primitive_mode_gl(*self),
    {
        match self {
            EnumGlPrimitiveMode::Point => GL_POINTS,
            EnumGlPrimitiveMode::Line => GL_LINES,
            EnumGlPrimitiveMode::LineStrip => GL_LINE_STRIP,
            EnumGlPrimitiveMode::LineLoop => GL_LINE_LOOP,
            EnumGlPrimitiveMode::LineAdjacency => GL_LINES_ADJACENCY,
            EnumGlPrimitiveMode::LineStripAdjacency => GL_LINE_STRIP_ADJACENCY,
            EnumGlPrimitiveMode::Triangle => GL_TRIANGLES,
            EnumGlPrimitiveMode::TriangleStrip => GL_TRIANGLE_STRIP,
            EnumGlPrimitiveMode::TriangleFan => GL_TRIANGLE_FAN,
            EnumGlPrimitiveMode::TriangleAdjacency => GL_TRIANGLES_ADJACENCY,
            EnumGlPrimitiveMode::TriangleStripAdjacency => GL_TRIANGLE_STRIP_ADJACENCY,
        }
    }
}

/// The type of the indices drawn.
#[derive(Debug, Copy, Clone, PartialEq, Eq, Structural, Hash)]
pub enum EnumGlElementType {
    UnsignedByte,
    UnsignedShort,
    UnsignedInt,
}

impl EnumGlElementType {
    pub fn to_gl(&self) -> (r: u32)
        ensures
            r == match *self {
                EnumGlElementType::UnsignedByte => GL_UNSIGNED_BYTE,
                EnumGlElementType::UnsignedShort => GL_UNSIGNED_SHORT,
                EnumGlElementType::UnsignedInt => GL_UNSIGNED_INT,
            },
    {
        match self {
            EnumGlElementType::UnsignedByte => GL_UNSIGNED_BYTE,
            EnumGlElementType::UnsignedShort => GL_UNSIGNED_SHORT,
            EnumGlElementType::UnsignedInt => GL_UNSIGNED_INT,
        }
    }
}

/// A draw call. The multi-draw calls read their per-primitive counts, offsets
/// and base vertices from the context's arrays; the indirect ones from the
/// indirect buffer bound on the GPU.
#[derive(Debug, Copy, Clone, PartialEq, Eq, Structural, Hash)]
pub enum EnumGlDrawCommandFunction {
    DrawArray(EnumGlPrimitiveMode, i32, i32),
    DrawElements(EnumGlPrimitiveMode, i32, EnumGlElementType, usize),
    DrawElementsBaseVertex(EnumGlPrimitiveMode, i32, EnumGlElementType, usize, i32),
    MultiDrawArrays(EnumGlPrimitiveMode, i32),
    MultiDrawElements(EnumGlPrimitiveMode, EnumGlElementType, i32),
    MultiDrawElementsBaseVertex(EnumGlPrimitiveMode, EnumGlElementType, i32),
    MultiDrawArraysIndirect(EnumGlPrimitiveMode, i32, i32),
    MultiDrawElementsIndirect(EnumGlPrimitiveMode, EnumGlElementType, i32, i32),
}

/// One step of drawing a frame.
#[derive(Debug, Copy, Clone, PartialEq, Eq, Structural, Hash)]
pub enum EnumGlRenderStep {
    /// Clears the color and depth buffers.
    Clear,
    UseProgram(u32),
    /// Binds the vertex array at this index of the context's arrays.
    BindVao(usize),
    /// Binds the index buffer at this index of the context's buffers.
    BindIbo(usize),
    Draw(EnumGlDrawCommandFunction),
}

/// Whether no two commands are drawn with the same shader.
pub open spec fn spec_shaders_distinct(cs: Seq<(u32, usize, usize, usize, Seq<GlPrimitiveInfo>)>) -> bool {
    forall|i: int, j: int| 0 <= i < j < cs.len() ==> (#[trigger] cs[i]).0 != (#[trigger] cs[j]).0
}

/// Whether uniform buffer `u` is the block named `name`.
pub open spec fn spec_ubo_named(u: GlUbo, name: Seq<char>) -> bool {
    u.m_name matches Some(n) && n@ == name
}

/// The OpenGL context as the back end keeps track of it.
pub struct GlContext {
    pub m_state: EnumRendererState,
    pub m_settings: GlSettings,
    pub m_commands: GlRendererCommands,
    pub m_vao_buffers: Vec<GlVao>,
    pub m_vbo_buffers: Vec<GlVbo>,
    pub m_indirect_buffers: Vec<GlVbo>,
    pub m_ibo_buffers: Vec<GlIbo>,
    pub m_ubo_buffers: Vec<GlUbo>,
    /// The extensions the API reported when the context was applied.
    pub m_extensions: Vec<String>,
}

/// The draw call of a command with `primitive_count` primitives, given
/// whether it has indices (`indexed`, with `index_count` of them) and how the
/// context draws.
pub open spec fn spec_draw_call(
    indexed: bool,
    index_count: usize,
    primitive_count: usize,
    version: u32,
    mode: EnumRendererOptimizationMode,
) -> EnumGlDrawCommandFunction {
    if !indexed {
        if spec_indirect(version, mode) {
            EnumGlDrawCommandFunction::MultiDrawArraysIndirect(
                EnumGlPrimitiveMode::Triangle,
                primitive_count as i32,
                0,
            )
        } else {
            EnumGlDrawCommandFunction::MultiDrawArrays(EnumGlPrimitiveMode::Triangle, primitive_count as i32)
        }
    } else {
        match mode {
            EnumRendererOptimizationMode::MinimizeDrawCalls => if version >= 430 {
                EnumGlDrawCommandFunction::MultiDrawElementsIndirect(
                    EnumGlPrimitiveMode::Triangle,
                    EnumGlElementType::UnsignedInt,
                    primitive_count as i32,
                    0,
                )
            } else {
                EnumGlDrawCommandFunction::DrawElements(
                    EnumGlPrimitiveMode::Triangle,
                    index_count as i32,
                    EnumGlElementType::UnsignedInt,
                    0,
                )
            },
            EnumRendererOptimizationMode::NoOptimizations => EnumGlDrawCommandFunction::MultiDrawElementsBaseVertex(
                EnumGlPrimitiveMode::Triangle,
                EnumGlElementType::UnsignedInt,
                primitive_count as i32,
            ),
        }
    }
}

/// The draw call for command `c` of context `ctx`: a command whose index
/// buffer holds nothing (or when there is no index buffer at all) draws
/// vertices.
pub open spec fn spec_command_draw(ctx: GlContext, c: GlDrawCommandInfo) -> EnumGlDrawCommandFunction {
    let indexed = ctx.m_ibo_buffers@.len() != 0 && !(ctx.m_ibo_buffers@[c.m_ibo_index as int].m_length
        == 0 || ctx.m_ibo_buffers@[c.m_ibo_index as int].m_count == 0);
    spec_draw_call(
        indexed,
        if ctx.m_ibo_buffers@.len() != 0 {
            ctx.m_ibo_buffers@[c.m_ibo_index as int].m_count
        } else {
            0
        },
        c.m_primitives@.len() as usize,
        ctx.m_settings.m_version,
        ctx.m_settings.m_batch_mode,
    )
}

/// The steps drawing the first `n` commands of `ctx`, with the shader and
/// index buffer last bound after them: a command bound to another shader than
/// the last binds its program and vertex array, and its index buffer where
/// that one differs from the last (and there are index buffers).
pub open spec fn spec_render_steps(ctx: GlContext, n: int) -> (Seq<EnumGlRenderStep>, u32, usize)
    decreases n,
{
    if n <= 0 {
        (seq![EnumGlRenderStep::Clear], u32::MAX, usize::MAX)
    } else {
        let (steps, shader, ibo) = spec_render_steps(ctx, n - 1);
        let c = ctx.m_commands.m_draw_commands@[n - 1];
        let (bind_steps, new_shader, new_ibo) = if c.m_linked_shader != shader {
            if c.m_ibo_index != ibo && ctx.m_ibo_buffers@.len() != 0 {
                (
                    seq![
                        EnumGlRenderStep::UseProgram(c.m_linked_shader),
                        EnumGlRenderStep::BindVao(c.m_vao_index),
                        EnumGlRenderStep::BindIbo(c.m_ibo_index),
                    ],
                    c.m_linked_shader,
                    c.m_ibo_index,
                )
            } else {
                (
                    seq![
                        EnumGlRenderStep::UseProgram(c.m_linked_shader),
                        EnumGlRenderStep::BindVao(c.m_vao_index),
                    ],
                    c.m_linked_shader,
                    ibo,
                )
            }
        } else {
            (Seq::empty(), shader, ibo)
        };
        (
            steps + bind_steps.push(EnumGlRenderStep::Draw(spec_command_draw(ctx, c))),
            new_shader,
            new_ibo,
        )
    }
}


/// Whether context `after` is `before` freed: deleted, with every buffer
/// deleted and all else kept.
pub open spec fn spec_context_freed(before: GlContext, after: GlContext) -> bool {
    &&& after.m_state == EnumRendererState::Deleted
    &&& after.m_settings == before.m_settings
    &&& after.m_commands == before.m_commands
    &&& after.m_extensions@ == before.m_extensions@
    &&& after.m_ubo_buffers@ == before.m_ubo_buffers@.map_values(
        |u: GlUbo| GlUbo { m_state: EnumBufferState::Deleted, ..u },
    )
    &&& after.m_vao_buffers@ == before.m_vao_buffers@.map_values(
        |v: GlVao| GlVao { m_state: EnumBufferState::Deleted, ..v },
    )
    &&& after.m_vbo_buffers@ == before.m_vbo_buffers@.map_values(
        |v: GlVbo| GlVbo { m_state: EnumBufferState::Deleted, ..v },
    )
    &&& after.m_indirect_buffers@ == before.m_indirect_buffers@.map_values(
        |v: GlVbo| GlVbo { m_state: EnumBufferState::Deleted, ..v },
    )
    &&& after.m_ibo_buffers@ == before.m_ibo_buffers@.map_values(
        |b: GlIbo| GlIbo { m_state: EnumBufferState::Deleted, ..b },
    )
}

fn free_ubos(v: &mut Vec<GlUbo>)
    ensures
        final(v)@ == old(v)@.map_values(|u: GlUbo| GlUbo { m_state: EnumBufferState::Deleted, ..u }),
{
    let n = v.len();
    let mut i: usize = 0;
    while i < n
        invariant
            0 <= i <= n == v@.len() == old(v)@.len(),
            forall|j: int| 0 <= j < i ==> #[trigger] v@[j] == (GlUbo { m_state: EnumBufferState::Deleted, ..old(v)@[j] }),
            forall|j: int| i <= j < n ==> #[trigger] v@[j] == old(v)@[j],
        decreases n - i,
    {
        let mut u = v[i];
        u.free();
        v.set(i, u);
        i = i + 1;
    }
    assert(v@ =~= old(v)@.map_values(|u: GlUbo| GlUbo { m_state: EnumBufferState::Deleted, ..u }));
}

fn free_vaos(v: &mut Vec<GlVao>)
    ensures
        final(v)@ == old(v)@.map_values(|a: GlVao| GlVao { m_state: EnumBufferState::Deleted, ..a }),
{
    let n = v.len();
    let mut i: usize = 0;
    while i < n
        invariant
            0 <= i <= n == v@.len() == old(v)@.len(),
            forall|j: int| 0 <= j < i ==> #[trigger] v@[j] == (GlVao { m_state: EnumBufferState::Deleted, ..old(v)@[j] }),
            forall|j: int| i <= j < n ==> #[trigger] v@[j] == old(v)@[j],
        decreases n - i,
    {
        let mut a = v[i];
        a.free();
        v.set(i, a);
        i = i + 1;
    }
    assert(v@ =~= old(v)@.map_values(|a: GlVao| GlVao { m_state: EnumBufferState::Deleted, ..a }));
}

fn free_vbos(v: &mut Vec<GlVbo>)
    ensures
        final(v)@ == old(v)@.map_values(|b: GlVbo| GlVbo { m_state: EnumBufferState::Deleted, ..b }),
{
    let n = v.len();
    let mut i: usize = 0;
    while i < n
        invariant
            0 <= i <= n == v@.len() == old(v)@.len(),
            forall|j: int| 0 <= j < i ==> #[trigger] v@[j] == (GlVbo { m_state: EnumBufferState::Deleted, ..old(v)@[j] }),
            forall|j: int| i <= j < n ==> #[trigger] v@[j] == old(v)@[j],
        decreases n - i,
    {
        let mut b = v[i];
        b.free();
        v.set(i, b);
        i = i + 1;
    }
    assert(v@ =~= old(v)@.map_values(|b: GlVbo| GlVbo { m_state: EnumBufferState::Deleted, ..b }));
}

fn free_ibos(v: &mut Vec<GlIbo>)
    ensures
        final(v)@ == old(v)@.map_values(|b: GlIbo| GlIbo { m_state: EnumBufferState::Deleted, ..b }),
{
    let n = v.len();
    let mut i: usize = 0;
    while i < n
        invariant
            0 <= i <= n == v@.len() == old(v)@.len(),
            forall|j: int| 0 <= j < i ==> #[trigger] v@[j] == (GlIbo { m_state: EnumBufferState::Deleted, ..old(v)@[j] }),
            forall|j: int| i <= j < n ==> #[trigger] v@[j] == old(v)@[j],
        decreases n - i,
    {
        let mut b = v[i];
        b.free();
        v.set(i, b);
        i = i + 1;
    }
    assert(v@ =~= old(v)@.map_values(|b: GlIbo| GlIbo { m_state: EnumBufferState::Deleted, ..b }));
}

impl GlContext {
    /// A context not yet created: API 4.6, no batching, nothing queued.
    pub fn new() -> (r: GlContext)
        ensures
            r.m_state == EnumRendererState::NotCreated,
            r.m_settings == (GlSettings {
                m_version: 460,
                m_batch_mode: EnumRendererOptimizationMode::NoOptimizations,
            }),
            r.m_commands.m_draw_commands@.len() == 0,
            r.m_vao_buffers@.len() == 0,
            r.m_vbo_buffers@.len() == 0,
            r.m_indirect_buffers@.len() == 0,
            r.m_ibo_buffers@.len() == 0,
            r.m_ubo_buffers@.len() == 0,
            r.m_extensions@.len() == 0,
    {
        GlContext {
            m_state: EnumRendererState::NotCreated,
            m_settings: GlSettings { m_version: 460, m_batch_mode: EnumRendererOptimizationMode::default() },
            m_commands: GlRendererCommands::new(),
            m_vao_buffers: Vec::new(),
            m_vbo_buffers: Vec::new(),
            m_indirect_buffers: Vec::new(),
            m_ibo_buffers: Vec::new(),
            m_ubo_buffers: Vec::new(),
            m_extensions: Vec::new(),
        }
    }

    /// The index of the first uniform buffer of block `name`, if any.
    pub fn find_ubo(&self, name: &str) -> (r: Option<usize>)
        ensures
            r matches Some(i) ==> i < self.m_ubo_buffers@.len() && spec_ubo_named(
                self.m_ubo_buffers@[i as int],
                name@,
            ) && forall|j: int| 0 <= j < i ==> !spec_ubo_named(#[trigger] self.m_ubo_buffers@[j], name@),
            r is None ==> forall|j: int|
                0 <= j < self.m_ubo_buffers@.len() ==> !spec_ubo_named(
                    #[trigger] self.m_ubo_buffers@[j],
                    name@,
                ),
    {
        let mut i: usize = 0;
        while i < self.m_ubo_buffers.len()
            invariant
                0 <= i <= self.m_ubo_buffers.len(),
                forall|j: int| 0 <= j < i ==> !spec_ubo_named(#[trigger] self.m_ubo_buffers@[j], name@),
            decreases self.m_ubo_buffers.len() - i,
        {
            let named = match self.m_ubo_buffers[i].m_name {
                Some(n) => str_eq(n, name),
                None => false,
            };
            if named {
                return Some(i);
            }
            i = i + 1;
        }
        None
    }

    /// Frees the context: one never created, or already deleted, is refused
    /// with `InvalidContext`; otherwise every buffer is freed and the context
    /// is deleted.
    pub fn free(&mut self) -> (r: Result<(), EnumRendererError>)
        ensures
            final(self).m_extensions@ == old(self).m_extensions@,
            r is Err <==> (old(self).m_state == EnumRendererState::NotCreated || old(self).m_state
                == EnumRendererState::Deleted),
            r is Err ==> r == Err::<(), EnumRendererError>(
                EnumRendererError::OpenGLError(EnumOpenGLError::InvalidContext),
            ) && *final(self) == *old(self),
            r is Ok ==> spec_context_freed(*old(self), *final(self)),
    {
        if self.m_state == EnumRendererState::NotCreated || self.m_state == EnumRendererState::Deleted {
            return Err(EnumRendererError::OpenGLError(EnumOpenGLError::InvalidContext));
        }
        free_ubos(&mut self.m_ubo_buffers);
        free_vaos(&mut self.m_vao_buffers);
        free_vbos(&mut self.m_vbo_buffers);
        free_vbos(&mut self.m_indirect_buffers);
        free_ibos(&mut self.m_ibo_buffers);
        self.m_state = EnumRendererState::Deleted;
        Ok(())
    }

    /// Records a command's primitives in the draw arrays, or, when draws are
    /// indirect, returns their indirect commands: those of the indexed
    /// primitives where the command has any, else those of the others.
    pub fn push_command_data(&mut self, command: &GlDrawCommandInfo) -> (r: GlCommandData)
        requires
            spec_primitives_wf(command.m_primitives@),
        ensures
            final(self).m_extensions@ == old(self).m_extensions@,
            final(self).m_settings == old(self).m_settings,
            final(self).m_state == old(self).m_state,
            final(self).m_commands.m_draw_commands@ == old(self).m_commands.m_draw_commands@,
            final(self).m_vao_buffers@ == old(self).m_vao_buffers@,
            final(self).m_vbo_buffers@ == old(self).m_vbo_buffers@,
            final(self).m_ibo_buffers@ == old(self).m_ibo_buffers@,
            final(self).m_ubo_buffers@ == old(self).m_ubo_buffers@,
            ({
                let p = command.m_primitives@;
                let n = p.len() as int;
                let ind = spec_indirect(old(self).m_settings.m_version, old(self).m_settings.m_batch_mode);
                let c = old(self).m_commands;
                let f = final(self).m_commands;
                &&& r.m_new_indirect_buffer == (if ind && old(self).m_indirect_buffers@.len() == 0 {
                    Some(
                        if spec_any_indexed(p) {
                            C_ELEMENTS_INDIRECT_SIZE
                        } else {
                            C_ARRAYS_INDIRECT_SIZE
                        },
                    )
                } else {
                    None
                })
                &&& ind ==> r.m_indirect@ == spec_indirect_commands(p, n, spec_any_indexed(p))
                    && f.m_draw_command_vertex_count_array@ == c.m_draw_command_vertex_count_array@
                    && f.m_draw_command_vertex_offset_array@ == c.m_draw_command_vertex_offset_array@
                    && f.m_draw_command_index_count_array@ == c.m_draw_command_index_count_array@
                    && f.m_draw_command_index_offset_array@ == c.m_draw_command_index_offset_array@
                    && f.m_draw_command_base_indices@ == c.m_draw_command_base_indices@
                &&& !ind ==> r.m_indirect@.len() == 0
                    && spec_widen_i32(f.m_draw_command_vertex_count_array@) == spec_widen_i32(
                    c.m_draw_command_vertex_count_array@,
                ) + spec_field_of(p, n, false, spec_vbo_count_of())
                    && spec_widen_i32(f.m_draw_command_vertex_offset_array@) == spec_widen_i32(
                    c.m_draw_command_vertex_offset_array@,
                ) + spec_field_of(p, n, false, spec_base_vertex_of())
                    && spec_widen_i32(f.m_draw_command_index_count_array@) == spec_widen_i32(
                    c.m_draw_command_index_count_array@,
                ) + spec_field_of(p, n, true, spec_ibo_count_of())
                    && spec_widen_isize(f.m_draw_command_index_offset_array@) == spec_widen_isize(
                    c.m_draw_command_index_offset_array@,
                ) + spec_field_of(p, n, true, spec_ibo_offset_of())
                    && spec_widen_i32(f.m_draw_command_base_indices@) == spec_widen_i32(
                    c.m_draw_command_base_indices@,
                ) + spec_field_of(p, n, true, spec_base_index_of())
            }),
    {
        let ind = self.m_settings.m_version >= 430 && self.m_settings.m_batch_mode
            == EnumRendererOptimizationMode::MinimizeDrawCalls;
        let n = command.m_primitives.len();
        let mut any_indexed = false;
        let mut j: usize = 0;
        while j < n
            invariant
                self.m_extensions@ == old(self).m_extensions@,
                0 <= j <= n == command.m_primitives@.len(),
                self.m_vao_buffers@ == old(self).m_vao_buffers@,
                self.m_vbo_buffers@ == old(self).m_vbo_buffers@,
                self.m_ibo_buffers@ == old(self).m_ibo_buffers@,
                self.m_ubo_buffers@ == old(self).m_ubo_buffers@,
                any_indexed <==> exists|m: int|
                    0 <= m < j && (#[trigger] command.m_primitives@[m]).m_ibo_count != 0,
            decreases n - j,
        {
            if command.m_primitives[j].m_ibo_count != 0 {
                any_indexed = true;
            }
            j = j + 1;
        }
        let mut new_buffer: Option<usize> = None;
        if ind && self.m_indirect_buffers.len() == 0 {
            new_buffer = Some(
                if any_indexed {
                    C_ELEMENTS_INDIRECT_SIZE
                } else {
                    C_ARRAYS_INDIRECT_SIZE
                },
            );
        }
        let mut arrays: Vec<GlIndirectCommand> = Vec::new();
        let mut elements: Vec<GlIndirectCommand> = Vec::new();
        let ghost p = command.m_primitives@;
        let ghost c0 = self.m_commands;
        let mut i: usize = 0;
        while i < n
            invariant
                self.m_extensions@ == old(self).m_extensions@,
                0 <= i <= n == p.len(),
                p == command.m_primitives@,
                self.m_vao_buffers@ == old(self).m_vao_buffers@,
                self.m_vbo_buffers@ == old(self).m_vbo_buffers@,
                self.m_ibo_buffers@ == old(self).m_ibo_buffers@,
                self.m_ubo_buffers@ == old(self).m_ubo_buffers@,
                spec_primitives_wf(p),
                ind == spec_indirect(self.m_settings.m_version, self.m_settings.m_batch_mode),
                self.m_settings == old(self).m_settings,
                self.m_state == old(self).m_state,
                self.m_indirect_buffers@ == old(self).m_indirect_buffers@,
                c0 == old(self).m_commands,
                self.m_commands.m_draw_commands@ == c0.m_draw_commands@,
                ind ==> arrays@ == spec_indirect_commands(p, i as int, false) && elements@
                    == spec_indirect_commands(p, i as int, true),
                ind ==> self.m_commands.m_draw_command_vertex_count_array@
                    == c0.m_draw_command_vertex_count_array@
                    && self.m_commands.m_draw_command_vertex_offset_array@
                    == c0.m_draw_command_vertex_offset_array@
                    && self.m_commands.m_draw_command_index_count_array@
                    == c0.m_draw_command_index_count_array@
                    && self.m_commands.m_draw_command_index_offset_array@
                    == c0.m_draw_command_index_offset_array@
                    && self.m_commands.m_draw_command_base_indices@ == c0.m_draw_command_base_indices@,
                !ind ==> arrays@.len() == 0 && elements@.len() == 0
                    && spec_widen_i32(self.m_commands.m_draw_command_vertex_count_array@)
                    == spec_widen_i32(c0.m_draw_command_vertex_count_array@) + spec_field_of(
                    p,
                    i as int,
                    false,
                    spec_vbo_count_of(),
                ) && spec_widen_i32(self.m_commands.m_draw_command_vertex_offset_array@)
                    == spec_widen_i32(c0.m_draw_command_vertex_offset_array@) + spec_field_of(
                    p,
                    i as int,
                    false,
                    spec_base_vertex_of(),
                ) && spec_widen_i32(self.m_commands.m_draw_command_index_count_array@)
                    == spec_widen_i32(c0.m_draw_command_index_count_array@) + spec_field_of(
                    p,
                    i as int,
                    true,
                    spec_ibo_count_of(),
                ) && spec_widen_isize(self.m_commands.m_draw_command_index_offset_array@)
                    == spec_widen_isize(c0.m_draw_command_index_offset_array@) + spec_field_of(
                    p,
                    i as int,
                    true,
                    spec_ibo_offset_of(),
                ) && spec_widen_i32(self.m_commands.m_draw_command_base_indices@) == spec_widen_i32(
                    c0.m_draw_command_base_indices@,
                ) + spec_field_of(p, i as int, true, spec_base_index_of()),
            decreases n - i,
        {
            let q = command.m_primitives[i];
            assert(q == p[i as int]);
            if q.m_ibo_count == 0 {
                if ind {
                    arrays.push(
                        GlIndirectCommand {
                            m_count: q.m_vbo_count as u32,
                            m_instance_count: 1,
                            m_first: q.m_base_vertex as u32,
                            m_first_vertex: 0,
                            m_first_instance: 0,
                            m_indexed: false,
                        },
                    );
                } else {
                    let ghost va = self.m_commands.m_draw_command_vertex_count_array@;
                    let ghost vo = self.m_commands.m_draw_command_vertex_offset_array@;
                    self.m_commands.m_draw_command_vertex_count_array.push(q.m_vbo_count);
                    self.m_commands.m_draw_command_vertex_offset_array.push(q.m_base_vertex);
                    proof {
                        assert(spec_field_of(p, i + 1, false, spec_vbo_count_of()) == spec_field_of(
                            p,
                            i as int,
                            false,
                            spec_vbo_count_of(),
                        ).push(q.m_vbo_count as int));
                        assert(spec_field_of(p, i + 1, false, spec_base_vertex_of()) == spec_field_of(
                            p,
                            i as int,
                            false,
                            spec_base_vertex_of(),
                        ).push(q.m_base_vertex as int));
                        assert(spec_widen_i32(va.push(q.m_vbo_count)) =~= spec_widen_i32(va).push(
                            q.m_vbo_count as int,
                        ));
                        assert(spec_widen_i32(vo.push(q.m_base_vertex)) =~= spec_widen_i32(vo).push(
                            q.m_base_vertex as int,
                        ));
                    }
                }
            } else {
                if ind {
                    elements.push(
                        GlIndirectCommand {
                            m_count: q.m_ibo_count as u32,
                            m_instance_count: 1,
                            m_first: (q.m_ibo_offset as usize / 4) as u32,
                            m_first_vertex: 0,
                            m_first_instance: 0,
                            m_indexed: true,
                        },
                    );
                } else {
                    let ghost ic = self.m_commands.m_draw_command_index_count_array@;
                    let ghost io = self.m_commands.m_draw_command_index_offset_array@;
                    let ghost bi = self.m_commands.m_draw_command_base_indices@;
                    self.m_commands.m_draw_command_index_count_array.push(q.m_ibo_count);
                    self.m_commands.m_draw_command_index_offset_array.push(q.m_ibo_offset);
                    self.m_commands.m_draw_command_base_indices.push(q.m_base_index);
                    proof {
                        assert(spec_field_of(p, i + 1, true, spec_ibo_count_of()) == spec_field_of(
                            p,
                            i as int,
                            true,
                            spec_ibo_count_of(),
                        ).push(q.m_ibo_count as int));
                        assert(spec_field_of(p, i + 1, true, spec_ibo_offset_of()) == spec_field_of(
                            p,
                            i as int,
                            true,
                            spec_ibo_offset_of(),
                        ).push(q.m_ibo_offset as int));
                        assert(spec_field_of(p, i + 1, true, spec_base_index_of()) == spec_field_of(
                            p,
                            i as int,
                            true,
                            spec_base_index_of(),
                        ).push(q.m_base_index as int));
                        assert(spec_widen_i32(ic.push(q.m_ibo_count)) =~= spec_widen_i32(ic).push(
                            q.m_ibo_count as int,
                        ));
                        assert(spec_widen_isize(io.push(q.m_ibo_offset)) =~= spec_widen_isize(io).push(
                            q.m_ibo_offset as int,
                        ));
                        assert(spec_widen_i32(bi.push(q.m_base_index)) =~= spec_widen_i32(bi).push(
                            q.m_base_index as int,
                        ));
                    }
                }
            }
            i = i + 1;
            proof {
              if !ind {
                assert(spec_widen_i32(self.m_commands.m_draw_command_vertex_count_array@)
                    =~= spec_widen_i32(c0.m_draw_command_vertex_count_array@) + spec_field_of(
                    p,
                    i as int,
                    false,
                    spec_vbo_count_of(),
                ));
                assert(spec_widen_i32(self.m_commands.m_draw_command_vertex_offset_array@)
                    =~= spec_widen_i32(c0.m_draw_command_vertex_offset_array@) + spec_field_of(
                    p,
                    i as int,
                    false,
                    spec_base_vertex_of(),
                ));
                assert(spec_widen_i32(self.m_commands.m_draw_command_index_count_array@)
                    =~= spec_widen_i32(c0.m_draw_command_index_count_array@) + spec_field_of(
                    p,
                    i as int,
                    true,
                    spec_ibo_count_of(),
                ));
                assert(spec_widen_isize(self.m_commands.m_draw_command_index_offset_array@)
                    =~= spec_widen_isize(c0.m_draw_command_index_offset_array@) + spec_field_of(
                    p,
                    i as int,
                    true,
                    spec_ibo_offset_of(),
                ));
                assert(spec_widen_i32(self.m_commands.m_draw_command_base_indices@) =~= spec_widen_i32(
                    c0.m_draw_command_base_indices@,
                ) + spec_field_of(p, i as int, true, spec_base_index_of()));
              }
            }
        }
        let indirect = if ind {
            if any_indexed {
                elements
            } else {
                arrays
            }
        } else {
            Vec::new()
        };
        GlCommandData { m_new_indirect_buffer: new_buffer, m_indirect: indirect }
    }

    /// The view of the draw commands: each command's shader, buffers and primitives.
    pub open spec fn spec_commands(&self) -> Seq<(u32, usize, usize, usize, Seq<GlPrimitiveInfo>)> {
        self.m_commands.m_draw_commands@.map_values(
            |c: GlDrawCommandInfo|
                (c.m_linked_shader, c.m_vao_index, c.m_vbo_index, c.m_ibo_index, c.m_primitives@),
        )
    }

    /// The index of the last command drawn with `shader_id`, if any.
    pub fn last_with_shader(&self, shader_id: u32) -> (r: Option<usize>)
        ensures
            r matches Some(i) ==> i < self.m_commands.m_draw_commands@.len()
                && self.m_commands.m_draw_commands@[i as int].m_linked_shader == shader_id
                && forall|j: int|
                i < j < self.m_commands.m_draw_commands@.len() ==> (
                #[trigger] self.m_commands.m_draw_commands@[j]).m_linked_shader != shader_id,
            r is None ==> forall|j: int|
                0 <= j < self.m_commands.m_draw_commands@.len() ==> (
                #[trigger] self.m_commands.m_draw_commands@[j]).m_linked_shader != shader_id,
    {
        let mut i: usize = self.m_commands.m_draw_commands.len();
        while i > 0
            invariant
                0 <= i <= self.m_commands.m_draw_commands.len(),
                forall|j: int|
                    i <= j < self.m_commands.m_draw_commands@.len() ==> (
                    #[trigger] self.m_commands.m_draw_commands@[j]).m_linked_shader != shader_id,
            decreases i,
        {
            if self.m_commands.m_draw_commands[i - 1].m_linked_shader == shader_id {
                return Some(i - 1);
            }
            i = i - 1;
        }
        None
    }

    /// Queues `command`: its primitives join the last command drawn with the
    /// same shader, or it becomes a new command; its data is recorded either
    /// way. Commands queued this way each have their own shader.
    pub fn push_command(&mut self, command: GlDrawCommandInfo) -> (r: GlCommandData)
        requires
            spec_primitives_wf(command.m_primitives@),
        ensures
            final(self).m_extensions@ == old(self).m_extensions@,
            final(self).m_settings == old(self).m_settings,
            final(self).m_state == old(self).m_state,
            final(self).m_vao_buffers@ == old(self).m_vao_buffers@,
            final(self).m_vbo_buffers@ == old(self).m_vbo_buffers@,
            final(self).m_ibo_buffers@ == old(self).m_ibo_buffers@,
            final(self).m_ubo_buffers@ == old(self).m_ubo_buffers@,
            spec_shaders_distinct(old(self).spec_commands()) ==> spec_shaders_distinct(
                final(self).spec_commands(),
            ),
            ({
                let cs = old(self).m_commands.m_draw_commands@;
                let same = exists|j: int|
                    0 <= j < cs.len() && (#[trigger] cs[j]).m_linked_shader == command.m_linked_shader;
                let cv = (
                    command.m_linked_shader,
                    command.m_vao_index,
                    command.m_vbo_index,
                    command.m_ibo_index,
                    command.m_primitives@,
                );
                &&& !same ==> final(self).spec_commands() == old(self).spec_commands().push(cv)
                &&& same ==> exists|j: int|
                    #![trigger cs[j]]
                    0 <= j < cs.len() && cs[j].m_linked_shader == command.m_linked_shader && (forall|
                        m: int,
                    |
                        j < m < cs.len() ==> (#[trigger] cs[m]).m_linked_shader
                            != command.m_linked_shader) && final(self).spec_commands()
                        == old(self).spec_commands().update(
                        j,
                        (
                            cs[j].m_linked_shader,
                            cs[j].m_vao_index,
                            cs[j].m_vbo_index,
                            cs[j].m_ibo_index,
                            cs[j].m_primitives@ + command.m_primitives@,
                        ),
                    )
            }),
    {
        let ghost cs = self.m_commands.m_draw_commands@;
        let found = self.last_with_shader(command.m_linked_shader);
        match found {
            Some(j) => {
                let mut c = self.m_commands.m_draw_commands.remove(j);
                let mut extra = command.m_primitives.clone();
                assert(extra@ == command.m_primitives@);
                c.m_primitives.append(&mut extra);
                self.m_commands.m_draw_commands.insert(j, c);
                let data = self.push_command_data(&command);
                proof {
                    assert(self.spec_commands() =~= old(self).spec_commands().update(
                        j as int,
                        (
                            cs[j as int].m_linked_shader,
                            cs[j as int].m_vao_index,
                            cs[j as int].m_vbo_index,
                            cs[j as int].m_ibo_index,
                            cs[j as int].m_primitives@ + command.m_primitives@,
                        ),
                    ));
                    assert forall|i: int| 0 <= i < self.spec_commands().len() implies (
                    #[trigger] self.spec_commands()[i]).0 == old(self).spec_commands()[i].0 by {}
                    if spec_shaders_distinct(old(self).spec_commands()) {
                        assert forall|a: int, b: int|
                            0 <= a < b < self.spec_commands().len() implies (
                        #[trigger] self.spec_commands()[a]).0 != (#[trigger] self.spec_commands()[b]).0 by {
                            assert(old(self).spec_commands()[a].0 != old(self).spec_commands()[b].0);
                        }
                    }
                }
                data
            },
            None => {
                let data = self.push_command_data(&command);
                let ghost cv = (
                    command.m_linked_shader,
                    command.m_vao_index,
                    command.m_vbo_index,
                    command.m_ibo_index,
                    command.m_primitives@,
                );
                self.m_commands.m_draw_commands.push(command);
                proof {
                    assert(self.spec_commands() =~= old(self).spec_commands().push(cv));
                }
                data
            },
        }
    }

    /// Shows (`visible`) or hides the primitives of entity `entity_uuid`: in
    /// every command holding one of them, the primitives at the positions from
    /// `instance_offset` (0 if none) up to `instance_count`. An entity that no
    /// command holds is refused with `EntityNotFound`.
    pub fn toggle_visibility_of(
        &mut self,
        entity_uuid: u64,
        instance_offset: Option<usize>,
        instance_count: usize,
        visible: bool,
    ) -> (r: Result<(), EnumRendererError>)
        requires
            forall|j: int|
                0 <= j < old(self).m_commands.m_draw_commands@.len() && spec_holds_entity(
                    #[trigger] old(self).m_commands.m_draw_commands@[j],
                    entity_uuid,
                ) ==> instance_count <= old(self).m_commands.m_draw_commands@[j].m_primitives@.len(),
        ensures
            final(self).m_extensions@ == old(self).m_extensions@,
            final(self).m_settings == old(self).m_settings,
            final(self).m_state == old(self).m_state,
            r is Err <==> !exists|j: int|
                0 <= j < old(self).m_commands.m_draw_commands@.len() && spec_holds_entity(
                    #[trigger] old(self).m_commands.m_draw_commands@[j],
                    entity_uuid,
                ),
            r is Err ==> r == Err::<(), EnumRendererError>(EnumRendererError::EntityNotFound)
                && final(self).spec_commands() == old(self).spec_commands(),
            r is Ok ==> final(self).spec_commands().len() == old(self).spec_commands().len(),
            r is Ok ==> forall|j: int|
                0 <= j < old(self).spec_commands().len() ==> #[trigger] final(self).spec_commands()[j]
                    == spec_toggled_command(
                    old(self).spec_commands()[j],
                    entity_uuid,
                    match instance_offset {
                        Some(o) => o as int,
                        None => 0,
                    },
                    instance_count as int,
                    visible,
                ),
    {
        let ghost old_view = self.spec_commands();
        let start = match instance_offset {
            Some(o) => o,
            None => 0,
        };
        let n = self.m_commands.m_draw_commands.len();
        let mut any = false;
        let mut j: usize = 0;
        while j < n
            invariant
                self.m_extensions@ == old(self).m_extensions@,
                0 <= j <= n == self.m_commands.m_draw_commands@.len() == old_view.len(),
                self.m_settings == old(self).m_settings,
                self.m_state == old(self).m_state,
                old_view == old(self).spec_commands(),
                any <==> exists|m: int|
                    0 <= m < j && spec_holds_entity(
                        #[trigger] old(self).m_commands.m_draw_commands@[m],
                        entity_uuid,
                    ),
                forall|m: int|
                    0 <= m < j ==> #[trigger] self.spec_commands()[m] == spec_toggled_command(
                        old_view[m],
                        entity_uuid,
                        start as int,
                        instance_count as int,
                        visible,
                    ),
                forall|m: int| j <= m < n ==> #[trigger] self.spec_commands()[m] == old_view[m],
                forall|m: int|
                    j <= m < n ==> #[trigger] self.m_commands.m_draw_commands@[m]
                        == old(self).m_commands.m_draw_commands@[m],
                forall|m: int|
                    0 <= m < n && spec_holds_entity(
                        #[trigger] old(self).m_commands.m_draw_commands@[m],
                        entity_uuid,
                    ) ==> instance_count <= old(self).m_commands.m_draw_commands@[m].m_primitives@.len(),
            decreases n - j,
        {
            let holds = self.command_holds(j, entity_uuid);
            let ghost cmds_before = self.m_commands.m_draw_commands@;
            let ghost view_before = self.spec_commands();
            if holds {
                any = true;
                let mut c = self.m_commands.m_draw_commands.remove(j);
                let ghost c_before = c;
                let ghost before = c.m_primitives@;
                assert(c_before == old(self).m_commands.m_draw_commands@[j as int]);
                let mut k: usize = start;
                while k < instance_count
                    invariant
                        self.m_extensions@ == old(self).m_extensions@,
                        start <= k,
                        k <= instance_count || k == start,
                        c.m_linked_shader == c_before.m_linked_shader,
                        c.m_vao_index == c_before.m_vao_index,
                        c.m_vbo_index == c_before.m_vbo_index,
                        c.m_ibo_index == c_before.m_ibo_index,
                        instance_count <= before.len(),
                        c.m_primitives@.len() == before.len(),
                        forall|m: int|
                            0 <= m < before.len() ==> #[trigger] c.m_primitives@[m] == (if start <= m
                                < k {
                                GlPrimitiveInfo { m_visible: visible, ..before[m] }
                            } else {
                                before[m]
                            }),
                    decreases instance_count - k,
                {
                    let mut q = c.m_primitives[k];
                    q.m_visible = visible;
                    c.m_primitives.set(k, q);
                    k = k + 1;
                }
                proof {
                    assert(c.m_primitives@ =~= spec_toggled_primitives(
                        before,
                        start as int,
                        instance_count as int,
                        visible,
                    ));
                }
                let ghost c_after = c;
                self.m_commands.m_draw_commands.insert(j, c);
                proof {
                    assert(self.m_commands.m_draw_commands@ =~= cmds_before.update(j as int, c_after));
                    assert(c_after.m_linked_shader == c_before.m_linked_shader);
                    assert(c_after.m_vao_index == c_before.m_vao_index);
                    assert(c_after.m_vbo_index == c_before.m_vbo_index);
                    assert(c_after.m_ibo_index == c_before.m_ibo_index);
                    assert(self.spec_commands()[j as int] == (
                        c_before.m_linked_shader,
                        c_before.m_vao_index,
                        c_before.m_vbo_index,
                        c_before.m_ibo_index,
                        spec_toggled_primitives(before, start as int, instance_count as int, visible),
                    ));
                    let m0 = choose|m: int|
                        0 <= m < before.len() && (#[trigger] before[m]).m_uuid == entity_uuid;
                    assert(old_view[j as int].4 == before);
                    assert(old_view[j as int].4[m0].m_uuid == entity_uuid);
                }
            } else {
                proof {
                    assert(!spec_holds_entity(old(self).m_commands.m_draw_commands@[j as int], entity_uuid));
                    let c0 = old(self).m_commands.m_draw_commands@[j as int];
                    assert(old_view[j as int].4 == c0.m_primitives@);
                    assert(!exists|m: int|
                        0 <= m < old_view[j as int].4.len() && (#[trigger] old_view[j as int].4[m]).m_uuid
                            == entity_uuid);
                }
            }
            proof {
                assert forall|m: int| 0 <= m < j + 1 implies #[trigger] self.spec_commands()[m]
                    == spec_toggled_command(
                    old_view[m],
                    entity_uuid,
                    start as int,
                    instance_count as int,
                    visible,
                ) by {
                    if m < j {
                        assert(self.m_commands.m_draw_commands@[m] == cmds_before[m]);
                        assert(self.spec_commands()[m] == view_before[m]);
                    }
                    if m == j {
                        let c0 = old(self).m_commands.m_draw_commands@[m];
                        assert(old_view[m] == (
                            c0.m_linked_shader,
                            c0.m_vao_index,
                            c0.m_vbo_index,
                            c0.m_ibo_index,
                            c0.m_primitives@,
                        ));
                    }
                }
            }
            proof {
                assert forall|m: int| j + 1 <= m < n implies #[trigger] self.spec_commands()[m] == old_view[m] by {
                    assert(self.m_commands.m_draw_commands@[m] == cmds_before[m]);
                    assert(self.spec_commands()[m] == view_before[m]);
                }
                assert forall|m: int| j + 1 <= m < n implies #[trigger] self.m_commands.m_draw_commands@[m]
                    == old(self).m_commands.m_draw_commands@[m] by {
                    assert(self.m_commands.m_draw_commands@[m] == cmds_before[m]);
                }
            }
            j = j + 1;
        }
        if !any {
            assert(self.spec_commands() =~= old_view);
            return Err(EnumRendererError::EntityNotFound);
        }
        Ok(())
    }

    /// The steps drawing a frame: nothing unless the context was submitted;
    /// then the buffers are cleared and each command is drawn (see
    /// `spec_render_steps`). A `BindVao` step binds the array through
    /// `GlVao::bind`, whose API call is only made where it is due.
    pub fn plan_render(&self) -> (r: Vec<EnumGlRenderStep>)
        requires
            forall|j: int|
                0 <= j < self.m_commands.m_draw_commands@.len() ==> (
                #[trigger] self.m_commands.m_draw_commands@[j]).m_vao_index
                    < self.m_vao_buffers@.len() && (self.m_ibo_buffers@.len() != 0
                    ==> self.m_commands.m_draw_commands@[j].m_ibo_index < self.m_ibo_buffers@.len()),
        ensures
            self.m_state != EnumRendererState::Submitted ==> r@.len() == 0,
            self.m_state == EnumRendererState::Submitted ==> r@ == spec_render_steps(
                *self,
                self.m_commands.m_draw_commands@.len() as int,
            ).0,
    {
        let mut steps: Vec<EnumGlRenderStep> = Vec::new();
        if self.m_state != EnumRendererState::Submitted {
            return steps;
        }
        steps.push(EnumGlRenderStep::Clear);
        let mut shader: u32 = u32::MAX;
        let mut ibo: usize = usize::MAX;
        let n = self.m_commands.m_draw_commands.len();
        let mut j: usize = 0;
        while j < n
            invariant
                0 <= j <= n == self.m_commands.m_draw_commands@.len(),
                (steps@, shader, ibo) == spec_render_steps(*self, j as int),
                forall|m: int|
                    0 <= m < self.m_commands.m_draw_commands@.len() ==> (
                    #[trigger] self.m_commands.m_draw_commands@[m]).m_vao_index
                        < self.m_vao_buffers@.len() && (self.m_ibo_buffers@.len() != 0
                        ==> self.m_commands.m_draw_commands@[m].m_ibo_index
                        < self.m_ibo_buffers@.len()),
            decreases n - j,
        {
            let c = &self.m_commands.m_draw_commands[j];
            assert(*c == self.m_commands.m_draw_commands@[j as int]);
            if c.m_linked_shader != shader {
                steps.push(EnumGlRenderStep::UseProgram(c.m_linked_shader));
                steps.push(EnumGlRenderStep::BindVao(c.m_vao_index));
                shader = c.m_linked_shader;
                if c.m_ibo_index != ibo && self.m_ibo_buffers.len() != 0 {
                    steps.push(EnumGlRenderStep::BindIbo(c.m_ibo_index));
                    ibo = c.m_ibo_index;
                }
            }
            let indexed = self.m_ibo_buffers.len() != 0 && !self.m_ibo_buffers[c.m_ibo_index].is_empty();
            let index_count = if self.m_ibo_buffers.len() != 0 {
                self.m_ibo_buffers[c.m_ibo_index].m_count
            } else {
                0
            };
            let count = c.m_primitives.len();
            let draw = draw_call(
                indexed,
                index_count,
                count,
                self.m_settings.m_version,
                self.m_settings.m_batch_mode,
            );
            steps.push(EnumGlRenderStep::Draw(draw));
            proof {
                let (s0, sh0, ib0) = spec_render_steps(*self, j as int);
                assert(spec_command_draw(*self, *c) == draw);
                assert(steps@ =~= spec_render_steps(*self, j + 1).0);
            }
            j = j + 1;
        }
        steps
    }

    /// Empties the queue after a flush: the commands, vertex arrays, vertex
    /// buffers and uniform buffers go; index and indirect buffers stay.
    pub fn flush(&mut self)
        ensures
            final(self).m_extensions@ == old(self).m_extensions@,
            final(self).m_commands.m_draw_commands@.len() == 0,
            final(self).m_vao_buffers@.len() == 0,
            final(self).m_vbo_buffers@.len() == 0,
            final(self).m_ubo_buffers@.len() == 0,
            final(self).m_ibo_buffers@ == old(self).m_ibo_buffers@,
            final(self).m_indirect_buffers@ == old(self).m_indirect_buffers@,
            final(self).m_state == old(self).m_state,
            final(self).m_settings == old(self).m_settings,
    {
        self.m_commands.m_draw_commands.clear();
        self.m_vao_buffers.clear();
        self.m_vbo_buffers.clear();
        self.m_ubo_buffers.clear();
    }

    /// The writes of the view and projection matrices into the camera block;
    /// without one, `UboNotFound`.
    pub fn update_ubo_camera(&mut self) -> (r: Result<Vec<GlUboWrite>, EnumRendererError>)
        ensures
            final(self).m_extensions@ == old(self).m_extensions@,
            final(self).m_state == old(self).m_state,
            final(self).m_settings == old(self).m_settings,
            final(self).m_ubo_buffers@.len() == old(self).m_ubo_buffers@.len(),
            final(self).m_commands == old(self).m_commands,
            final(self).m_vao_buffers@ == old(self).m_vao_buffers@,
            final(self).m_vbo_buffers@ == old(self).m_vbo_buffers@,
            final(self).m_ibo_buffers@ == old(self).m_ibo_buffers@,
            final(self).m_indirect_buffers@ == old(self).m_indirect_buffers@,
            forall|j: int|
                spec_first_ubo(old(self).m_ubo_buffers@, "ubo_camera"@, j) ==> final(self).m_ubo_buffers@
                    == old(self).m_ubo_buffers@.update(
                    j,
                    GlUbo { m_state: EnumBufferState::Bound, ..old(self).m_ubo_buffers@[j] },
                ),
            r is Err ==> final(self).m_ubo_buffers@ == old(self).m_ubo_buffers@,
            r is Err <==> forall|j: int|
                0 <= j < old(self).m_ubo_buffers@.len() ==> !spec_ubo_named(
                    #[trigger] old(self).m_ubo_buffers@[j],
                    "ubo_camera"@,
                ),
            r is Err ==> r == Err::<Vec<GlUboWrite>, EnumRendererError>(EnumRendererError::UboNotFound),
            r matches Ok(w) ==> w@ == seq![
                GlUboWrite {
                    m_offset: 0,
                    m_size: C_MAT4_SIZE,
                    m_source: crate::graphics::buffer::EnumUboSource::Matrix(1),
                },
                GlUboWrite {
                    m_offset: C_MAT4_SIZE,
                    m_size: C_MAT4_SIZE,
                    m_source: crate::graphics::buffer::EnumUboSource::Matrix(2),
                },
            ],
    {
        match self.find_ubo("ubo_camera") {
            None => Err(EnumRendererError::UboNotFound),
            Some(i) => {
                proof {
                    assert forall|j: int| spec_first_ubo(self.m_ubo_buffers@, "ubo_camera"@, j) implies j == i by {
                        lemma_first_ubo_unique(self.m_ubo_buffers@, "ubo_camera"@, i as int, j);
                    }
                }
                let mut u = self.m_ubo_buffers[i];
                let w = u.push(EnumUboType::ViewProjection);
                self.m_ubo_buffers.set(i, u);
                match w {
                    Ok(writes) => Ok(writes),
                    Err(_) => Err(EnumRendererError::UboNotFound),
                }
            },
        }
    }

    /// The writes of one value per instance, from `instance_offset` (0 if
    /// none) up to `instance_count`, into the block `name`: at slot
    /// `entity_uuid + instance`, a model matrix (`wireframe` is `None`) or the
    /// wireframe flag. Without the block, `UboNotFound`; a slot past the
    /// block's count stops the writes with the buffer's error.
    pub fn update_instances(
        &mut self,
        name: &str,
        wireframe: Option<bool>,
        entity_uuid: u64,
        instance_offset: Option<usize>,
        instance_count: usize,
    ) -> (r: (Vec<GlUboWrite>, Result<(), EnumRendererError>))
        requires
            entity_uuid + instance_count <= usize::MAX,
            C_MAT4_SIZE * (entity_uuid + instance_count) <= usize::MAX,
        ensures
            final(self).m_extensions@ == old(self).m_extensions@,
            final(self).m_state == old(self).m_state,
            final(self).m_settings == old(self).m_settings,
            final(self).m_ubo_buffers@.len() == old(self).m_ubo_buffers@.len(),
            final(self).m_commands == old(self).m_commands,
            final(self).m_vao_buffers@ == old(self).m_vao_buffers@,
            final(self).m_vbo_buffers@ == old(self).m_vbo_buffers@,
            final(self).m_ibo_buffers@ == old(self).m_ibo_buffers@,
            final(self).m_indirect_buffers@ == old(self).m_indirect_buffers@,
            forall|j: int|
                spec_first_ubo(old(self).m_ubo_buffers@, name@, j) ==> final(self).m_ubo_buffers@ == (if (match instance_offset {
                    Some(o) => o as int,
                    None => 0,
                }) < instance_count {
                    old(self).m_ubo_buffers@.update(
                        j,
                        GlUbo { m_state: EnumBufferState::Bound, ..old(self).m_ubo_buffers@[j] },
                    )
                } else {
                    old(self).m_ubo_buffers@
                }),
            (forall|j: int| !spec_first_ubo(old(self).m_ubo_buffers@, name@, j)) ==> final(self).m_ubo_buffers@
                == old(self).m_ubo_buffers@,
            ({
                let start = match instance_offset {
                    Some(o) => o as int,
                    None => 0,
                };
                let found = exists|j: int|
                    0 <= j < old(self).m_ubo_buffers@.len() && spec_ubo_named(
                        #[trigger] old(self).m_ubo_buffers@[j],
                        name@,
                    );
                &&& !found ==> r.1 == Err::<(), EnumRendererError>(EnumRendererError::UboNotFound)
                    && r.0@.len() == 0
                &&& found ==> exists|j: int|
                    #![trigger old(self).m_ubo_buffers@[j]]
                    0 <= j < old(self).m_ubo_buffers@.len() && spec_ubo_named(
                        old(self).m_ubo_buffers@[j],
                        name@,
                    ) && ({
                        let count = old(self).m_ubo_buffers@[j].m_count;
                        let stop = spec_first_overflow(entity_uuid as int, start, instance_count as int, count as int);
                        &&& r.1 is Ok <==> stop >= instance_count
                        &&& r.1 is Err ==> r.1 == Err::<(), EnumRendererError>(
                            EnumRendererError::OpenGLError(
                                EnumOpenGLError::InvalidBufferOperation(
                                    crate::graphics::renderer::EnumGlBufferError::InvalidBufferOffset,
                                ),
                            ),
                        )
                        &&& r.0@ == spec_instance_writes(entity_uuid as int, start, stop, wireframe)
                    })
            }),
    {
        let start = match instance_offset {
            Some(o) => o,
            None => 0,
        };
        let mut writes: Vec<GlUboWrite> = Vec::new();
        match self.find_ubo(name) {
            None => (writes, Err(EnumRendererError::UboNotFound)),
            Some(i) => {
                proof {
                    assert forall|j: int| spec_first_ubo(self.m_ubo_buffers@, name@, j) implies j == i by {
                        lemma_first_ubo_unique(self.m_ubo_buffers@, name@, i as int, j);
                    }
                }
                let ghost count = self.m_ubo_buffers@[i as int].m_count;
                let ghost stop = spec_first_overflow(
                    entity_uuid as int,
                    start as int,
                    instance_count as int,
                    count as int,
                );
                proof {
                    lemma_first_overflow(entity_uuid as int, start as int, instance_count as int, count as int);
                }
                let mut k: usize = start;
                while k < instance_count
                    invariant
                        self.m_extensions@ == old(self).m_extensions@,
                        start <= k,
                        k <= instance_count || k == start,
                        i < self.m_ubo_buffers@.len() == old(self).m_ubo_buffers@.len(),
                        self.m_ubo_buffers@[i as int].m_count == count,
                        old(self).m_ubo_buffers@[i as int].m_count == count,
                        spec_ubo_named(old(self).m_ubo_buffers@[i as int], name@),
                        start == (match instance_offset {
                            Some(o) => o,
                            None => 0usize,
                        }),
                        self.m_state == old(self).m_state,
                        self.m_settings == old(self).m_settings,
                        self.m_commands == old(self).m_commands,
                        self.m_vao_buffers@ == old(self).m_vao_buffers@,
                        self.m_vbo_buffers@ == old(self).m_vbo_buffers@,
                        self.m_ibo_buffers@ == old(self).m_ibo_buffers@,
                        self.m_indirect_buffers@ == old(self).m_indirect_buffers@,
                        self.m_ubo_buffers@ == (if k > start {
                            old(self).m_ubo_buffers@.update(
                                i as int,
                                GlUbo { m_state: EnumBufferState::Bound, ..old(self).m_ubo_buffers@[i as int] },
                            )
                        } else {
                            old(self).m_ubo_buffers@
                        }),
                        forall|j: int| spec_first_ubo(old(self).m_ubo_buffers@, name@, j) ==> j == i,
                        spec_first_ubo(old(self).m_ubo_buffers@, name@, i as int),
                        entity_uuid + instance_count <= usize::MAX,
                        C_MAT4_SIZE * (entity_uuid + instance_count) <= usize::MAX,
                        k <= stop,
                        stop == spec_first_overflow(entity_uuid as int, start as int, instance_count as int, count as int),
                        start <= stop,
                        stop < instance_count ==> entity_uuid + stop > count,
                        forall|m: int|
                            start <= m < stop ==> #[trigger] spec_slot_fits(entity_uuid as int, m, count as int),
                        writes@ == spec_instance_writes(entity_uuid as int, start as int, k as int, wireframe),
                    decreases instance_count - k,
                {
                    let slot = entity_uuid as usize + k;
                    proof {
                        if k < stop {
                            assert(spec_slot_fits(entity_uuid as int, k as int, count as int));
                        }
                    }
                    assert(C_MAT4_SIZE * slot <= usize::MAX) by (nonlinear_arith)
                        requires
                            slot <= entity_uuid + instance_count,
                            C_MAT4_SIZE * (entity_uuid + instance_count) <= usize::MAX,
                    ;
                    assert(16 * slot <= usize::MAX) by (nonlinear_arith)
                        requires
                            slot <= entity_uuid + instance_count,
                            C_MAT4_SIZE * (entity_uuid + instance_count) <= usize::MAX,
                    ;
                    let kind = match wireframe {
                        Some(v) => EnumUboType::Wireframe(v, slot),
                        None => EnumUboType::Transform(slot),
                    };
                    let mut u = self.m_ubo_buffers[i];
                    let w = u.push(kind);
                    self.m_ubo_buffers.set(i, u);
                    match w {
                        Err(e) => {
                            assert(k == stop);
                            assert(spec_ubo_named(old(self).m_ubo_buffers@[i as int], name@));
                            assert(e == EnumOpenGLError::InvalidBufferOperation(
                                crate::graphics::renderer::EnumGlBufferError::InvalidBufferOffset,
                            ));
                            let r = (writes, Err(EnumRendererError::OpenGLError(e)));
                            return r;
                        },
                        Ok(ws) => {
                            writes.push(ws[0]);
                            assert(writes@ =~= spec_instance_writes(
                                entity_uuid as int,
                                start as int,
                                k + 1,
                                wireframe,
                            ));
                        },
                    }
                    k = k + 1;
                }
                assert(spec_ubo_named(old(self).m_ubo_buffers@[i as int], name@));
                (writes, Ok(()))
            },
        }
    }

    /// Lays out entity `uuid` (sub-meshes `counts`) for shader `shader_id`: its
    /// primitives join the last command of the shader that holds another
    /// entity, in that command's buffers; otherwise they start the last
    /// buffers created.
    pub fn enqueue_layout(&self, shader_id: u32, uuid: u64, counts: &Vec<(usize, usize)>) -> (r: GlDrawCommandInfo)
        requires
            self.m_vao_buffers@.len() > 0,
            self.m_vbo_buffers@.len() > 0,
            forall|j: int|
                0 <= j < self.m_commands.m_draw_commands@.len() ==> spec_primitives_wf(
                    (#[trigger] self.m_commands.m_draw_commands@[j]).m_primitives@,
                ) && spec_join_fits(self.m_commands.m_draw_commands@[j].m_primitives@, counts@),
            spec_join_fits(Seq::empty(), counts@),
        ensures
            ({
                let prev = self.m_commands.m_draw_commands@;
                let similar = exists|j: int|
                    0 <= j < prev.len() && spec_similar(#[trigger] prev[j], shader_id, uuid);
                &&& r.m_linked_shader == shader_id
                &&& r.m_primitives@.len() == counts@.len()
                &&& spec_primitives_wf(r.m_primitives@)
                &&& !similar ==> r.m_vao_index == self.m_vao_buffers@.len() - 1
                    && r.m_vbo_index == self.m_vbo_buffers@.len() - 1 && r.m_ibo_index == (
                if self.m_ibo_buffers@.len() > 0 {
                    self.m_ibo_buffers@.len() - 1
                } else {
                    0
                }) && forall|k: int|
                    0 <= k < counts@.len() ==> #[trigger] r.m_primitives@[k] == spec_planned_primitive(
                        uuid,
                        counts@,
                        (0, 0, 0),
                        k,
                    )
                &&& similar ==> exists|j: int|
                    #![trigger prev[j]]
                    0 <= j < prev.len() && spec_similar(prev[j], shader_id, uuid) && (forall|m: int|
                        j < m < prev.len() ==> !spec_similar(#[trigger] prev[m], shader_id, uuid))
                        && r.m_vao_index == prev[j].m_vao_index && r.m_vbo_index
                        == prev[j].m_vbo_index && r.m_ibo_index == prev[j].m_ibo_index && forall|
                        k: int,
                    |
                        0 <= k < counts@.len() ==> #[trigger] r.m_primitives@[k]
                            == spec_planned_primitive(
                            uuid,
                            counts@,
                            spec_join_start(prev[j].m_primitives@),
                            k,
                        )
            }),
    {
        let ibo_index = if self.m_ibo_buffers.len() > 0 {
            self.m_ibo_buffers.len() - 1
        } else {
            0
        };
        let indices = (self.m_vao_buffers.len() - 1, self.m_vbo_buffers.len() - 1, ibo_index);
        match self.m_commands.previous_similar(shader_id, uuid) {
            Some(j) => {
                let c = &self.m_commands.m_draw_commands[j];
                assert(*c == self.m_commands.m_draw_commands@[j as int]);
                plan_primitives(Some(c), indices, shader_id, uuid, counts)
            },
            None => plan_primitives(None, indices, shader_id, uuid, counts),
        }
    }

    fn command_holds(&self, j: usize, uuid: u64) -> (r: bool)
        requires
            j < self.m_commands.m_draw_commands@.len(),
        ensures
            r == spec_holds_entity(self.m_commands.m_draw_commands@[j as int], uuid),
    {
        let c = &self.m_commands.m_draw_commands[j];
        assert(*c == self.m_commands.m_draw_commands@[j as int]);
        let mut k: usize = 0;
        while k < c.m_primitives.len()
            invariant
                0 <= k <= c.m_primitives.len(),
                j < self.m_commands.m_draw_commands@.len(),
                *c == self.m_commands.m_draw_commands@[j as int],
                forall|m: int| 0 <= m < k ==> (#[trigger] c.m_primitives@[m]).m_uuid != uuid,
            decreases c.m_primitives.len() - k,
        {
            if c.m_primitives[k].m_uuid == uuid {
                assert(self.m_commands.m_draw_commands@[j as int].m_primitives@[k as int].m_uuid == uuid);
                return true;
            }
            k = k + 1;
        }
        false
    }
}

/// The first instance from `start` on (below `end`) whose slot
/// `uuid + instance` lies past `count`; `end` where there is none.
pub open spec fn spec_first_overflow(uuid: int, start: int, end: int, count: int) -> int
    decreases end - start,
{
    if start >= end {
        if start > end { start } else { end }
    } else if uuid + start > count {
        start
    } else {
        spec_first_overflow(uuid, start + 1, end, count)
    }
}

proof fn lemma_first_overflow(uuid: int, start: int, end: int, count: int)
    ensures
        start <= spec_first_overflow(uuid, start, end, count),
        start <= end ==> spec_first_overflow(uuid, start, end, count) <= end,
        start > end ==> spec_first_overflow(uuid, start, end, count) == start,
        spec_first_overflow(uuid, start, end, count) < end ==> uuid + spec_first_overflow(
            uuid,
            start,
            end,
            count,
        ) > count,
        forall|m: int|
            start <= m < spec_first_overflow(uuid, start, end, count) ==> #[trigger] spec_slot_fits(
                uuid,
                m,
                count,
            ),
    decreases end - start,
{
    if start < end && uuid + start <= count {
        lemma_first_overflow(uuid, start + 1, end, count);
    }
}

/// Whether slot `uuid + m` lies within `count`.
pub open spec fn spec_slot_fits(uuid: int, m: int, count: int) -> bool {
    uuid + m <= count
}

/// The writes for the instances from `start` to `stop`.
pub open spec fn spec_instance_writes(uuid: int, start: int, stop: int, wireframe: Option<bool>) -> Seq<GlUboWrite> {
    Seq::new(
        if stop > start { (stop - start) as nat } else { 0 },
        |m: int|
            match wireframe {
                Some(v) => GlUboWrite {
                    m_offset: (16 * (uuid + start + m)) as usize,
                    m_size: 4,
                    m_source: crate::graphics::buffer::EnumUboSource::Integer(if v { 1 } else { 0 }),
                },
                None => GlUboWrite {
                    m_offset: (C_MAT4_SIZE * (uuid + start + m)) as usize,
                    m_size: C_MAT4_SIZE,
                    m_source: crate::graphics::buffer::EnumUboSource::Matrix(0),
                },
            },
    )
}

/// The draw call chosen for a command (see `spec_draw_call`).
pub fn draw_call(
    indexed: bool,
    index_count: usize,
    primitive_count: usize,
    version: u32,
    mode: EnumRendererOptimizationMode,
) -> (r: EnumGlDrawCommandFunction)
    ensures
        r == spec_draw_call(indexed, index_count, primitive_count, version, mode),
{
    if !indexed {
        if version >= 430 && mode == EnumRendererOptimizationMode::MinimizeDrawCalls {
            return EnumGlDrawCommandFunction::MultiDrawArraysIndirect(
                EnumGlPrimitiveMode::Triangle,
                primitive_count as i32,
                0,
            );
        }
        return EnumGlDrawCommandFunction::MultiDrawArrays(EnumGlPrimitiveMode::Triangle, primitive_count as i32);
    }
    match mode {
        EnumRendererOptimizationMode::MinimizeDrawCalls => {
            if version >= 430 {
                EnumGlDrawCommandFunction::MultiDrawElementsIndirect(
                    EnumGlPrimitiveMode::Triangle,
                    EnumGlElementType::UnsignedInt,
                    primitive_count as i32,
                    0,
                )
            } else {
                EnumGlDrawCommandFunction::DrawElements(
                    EnumGlPrimitiveMode::Triangle,
                    index_count as i32,
                    EnumGlElementType::UnsignedInt,
                    0,
                )
            }
        },
        EnumRendererOptimizationMode::NoOptimizations => EnumGlDrawCommandFunction::MultiDrawElementsBaseVertex(
            EnumGlPrimitiveMode::Triangle,
            EnumGlElementType::UnsignedInt,
            primitive_count as i32,
        ),
    }
}

/// Whether sub-meshes `counts` can join primitives `prev` without their
/// counts and offsets overflowing.
pub open spec fn spec_join_fits(prev: Seq<GlPrimitiveInfo>, counts: Seq<(usize, usize)>) -> bool {
    let start = spec_join_start(prev);
    &&& prev.len() > 0 ==> prev.last().m_ibo_count * 4 <= i32::MAX
    &&& start.0 + spec_vertex_sum(counts, counts.len() as int) <= i32::MAX
    &&& start.1 + 4 * spec_index_sum(counts, counts.len() as int) <= i32::MAX
    &&& start.2 + counts.len() <= usize::MAX
}

/// The capacities of the buffers created for a new shader's entity: the
/// vertex buffer fits its vertices of `vertex_size` bytes; an index buffer is
/// made only where it has indices (4 bytes each).
pub fn alloc_capacities(vertex_size: usize, total_vertices: usize, total_indices: usize) -> (r: (usize, Option<usize>))
    requires
        vertex_size * total_vertices <= usize::MAX,
        4 * total_indices <= usize::MAX,
    ensures
        r.0 == vertex_size * total_vertices,
        r.1 == (if total_indices > 0 {
            Some((4 * total_indices) as usize)
        } else {
            None
        }),
{
    let ibo = if total_indices > 0 {
        Some(4 * total_indices)
    } else {
        None
    };
    (vertex_size * total_vertices, ibo)
}

/// The indices of a primitive shifted by its base index, as they are stored
/// when draw calls are minimized.
pub fn offset_indices(indices: &Vec<u32>, base_index: i32) -> (r: Vec<u32>)
    requires
        base_index >= 0,
        forall|k: int| 0 <= k < indices@.len() ==> #[trigger] indices@[k] + base_index <= u32::MAX,
    ensures
        r@.len() == indices@.len(),
        forall|k: int| 0 <= k < indices@.len() ==> #[trigger] r@[k] == indices@[k] + base_index,
{
    let mut out: Vec<u32> = Vec::new();
    let mut k: usize = 0;
    while k < indices.len()
        invariant
            0 <= k <= indices.len(),
            base_index >= 0,
            out@.len() == k,
            forall|m: int| 0 <= m < indices@.len() ==> #[trigger] indices@[m] + base_index <= u32::MAX,
            forall|m: int| 0 <= m < k ==> #[trigger] out@[m] == indices@[m] + base_index,
        decreases indices.len() - k,
    {
        out.push(indices[k] + base_index as u32);
        k = k + 1;
    }
    out
}

/// Whether command `c` holds a primitive of entity `uuid`.
pub open spec fn spec_holds_entity(c: GlDrawCommandInfo, uuid: u64) -> bool {
    exists|m: int| 0 <= m < c.m_primitives@.len() && (#[trigger] c.m_primitives@[m]).m_uuid == uuid
}

/// Primitives `p` with those at positions `start` to `end` shown or hidden.
pub open spec fn spec_toggled_primitives(p: Seq<GlPrimitiveInfo>, start: int, end: int, visible: bool) -> Seq<
    GlPrimitiveInfo,
> {
    Seq::new(
        p.len(),
        |m: int|
            if start <= m < end {
                GlPrimitiveInfo { m_visible: visible, ..p[m] }
            } else {
                p[m]
            },
    )
}

/// A command (as viewed) after toggling the visibility of entity `uuid`.
pub open spec fn spec_toggled_command(
    c: (u32, usize, usize, usize, Seq<GlPrimitiveInfo>),
    uuid: u64,
    start: int,
    end: int,
    visible: bool,
) -> (u32, usize, usize, usize, Seq<GlPrimitiveInfo>) {
    if exists|m: int| 0 <= m < c.4.len() && (#[trigger] c.4[m]).m_uuid == uuid {
        (c.0, c.1, c.2, c.3, spec_toggled_primitives(c.4, start, end, visible))
    } else {
        c
    }
}


/// An attribute of type `t` at byte `offset` of a vertex, not normalized,
/// advancing once every `divisor` instances (0: once per vertex).
pub open spec fn spec_vertex_attribute(t: EnumAttributeType, offset: usize, divisor: u8) -> GlVertexAttribute {
    GlVertexAttribute {
        m_gl_type: spec_attribute_layout(t).0,
        m_count: spec_attribute_layout(t).1,
        m_buffer_size: spec_attribute_layout(t).2,
        m_buffer_offset: offset,
        m_normalized: 0,
        m_attribute_divisor: divisor,
    }
}

/// The vertex layout of a mesh of `material`: its entity identifier, texture
/// word, position, normal, color and texture coordinates, in that order; a
/// flat material takes one normal per instance.
pub open spec fn spec_mesh_layout(material: EnumMaterial) -> Seq<GlVertexAttribute> {
    seq![
        spec_vertex_attribute(EnumAttributeType::UnsignedInt(1), 0, 0),
        spec_vertex_attribute(EnumAttributeType::Int(1), 4, 0),
        spec_vertex_attribute(EnumAttributeType::Vec3, 8, 0),
        spec_vertex_attribute(
            EnumAttributeType::UnsignedInt(1),
            20,
            if material == EnumMaterial::Flat {
                1
            } else {
                0
            },
        ),
        spec_vertex_attribute(EnumAttributeType::UnsignedInt(1), 24, 0),
        spec_vertex_attribute(EnumAttributeType::Vec2, 28, 0),
    ]
}

/// Whether the layout of a mesh of `material` is refused for its divisor:
/// a flat normal needs a divisor of one.
pub open spec fn spec_divisor_refused(material: EnumMaterial, max_vertex_attribs: i32) -> bool {
    material == EnumMaterial::Flat && (max_vertex_attribs as u8) == 0
}

/// Whether the API supports the six attributes of a mesh layout.
pub open spec fn spec_layout_supported(max_vertex_attribs: i32) -> bool {
    5 <= (max_vertex_attribs as usize)
}

impl GlContext {
    /// Enables on `vao` the vertex layout of a mesh primitive (see
    /// `spec_mesh_layout`), `C_VERTEX_SIZE` bytes apart, and returns the
    /// pointer calls to make. Only meshes have a layout.
    pub fn set_attributes(shading: EnumPrimitive, vao: &mut GlVao, max_vertex_attribs: i32) -> (r: Result<
        Vec<GlAttributePointer>,
        EnumOpenGLError,
    >)
        requires
            shading is Mesh,
        ensures
            ({
                let material = match shading {
                    EnumPrimitive::Mesh(m) => m,
                    _ => EnumMaterial::Smooth,
                };
                &&& spec_divisor_refused(material, max_vertex_attribs) ==> r == Err::<
                    Vec<GlAttributePointer>,
                    EnumOpenGLError,
                >(
                    EnumOpenGLError::InvalidBufferOperation(
                        crate::graphics::renderer::EnumGlBufferError::InvalidAttributeDivisor,
                    ),
                ) && *final(vao) == *old(vao)
                &&& !spec_divisor_refused(material, max_vertex_attribs) ==> *final(vao) == (GlVao {
                    m_state: EnumBufferState::Bound,
                    ..*old(vao)
                })
                &&& !spec_divisor_refused(material, max_vertex_attribs) && !spec_layout_supported(
                    max_vertex_attribs,
                ) ==> r == Err::<Vec<GlAttributePointer>, EnumOpenGLError>(
                    EnumOpenGLError::InvalidBufferOperation(
                        crate::graphics::renderer::EnumGlBufferError::InvalidVertexAttribute,
                    ),
                )
                &&& !spec_divisor_refused(material, max_vertex_attribs) && spec_layout_supported(
                    max_vertex_attribs,
                ) ==> (r matches Ok(calls) && calls@ == spec_layout_pointers(
                    spec_mesh_layout(material),
                    6,
                    C_VERTEX_SIZE,
                ))
            }),
    {
        let material = match shading {
            EnumPrimitive::Mesh(m) => m,
            _ => EnumMaterial::Smooth,
        };
        let mut attributes: Vec<GlVertexAttribute> = Vec::new();
        attributes.push(
            GlVertexAttribute::new(
                EnumAttributeType::UnsignedInt(1),
                false,
                EnumVertexMemberOffset::EntityIDOffset.offset(),
                0,
                max_vertex_attribs,
            )?,
        );
        attributes.push(
            GlVertexAttribute::new(
                EnumAttributeType::Int(1),
                false,
                EnumVertexMemberOffset::TextureInfoOffset.offset(),
                0,
                max_vertex_attribs,
            )?,
        );
        attributes.push(
            GlVertexAttribute::new(
                EnumAttributeType::Vec3,
                false,
                EnumVertexMemberOffset::PositionOffset.offset(),
                0,
                max_vertex_attribs,
            )?,
        );
        let normal_divisor: u8 = if material == EnumMaterial::Flat {
            1
        } else {
            0
        };
        let normal = GlVertexAttribute::new(
            EnumAttributeType::UnsignedInt(1),
            false,
            EnumVertexMemberOffset::NormalOffset.offset(),
            normal_divisor,
            max_vertex_attribs,
        );
        match normal {
            Err(e) => {
                return Err(e);
            },
            Ok(a) => {
                attributes.push(a);
            },
        }
        attributes.push(
            GlVertexAttribute::new(
                EnumAttributeType::UnsignedInt(1),
                false,
                EnumVertexMemberOffset::ColorOffset.offset(),
                0,
                max_vertex_attribs,
            )?,
        );
        attributes.push(
            GlVertexAttribute::new(
                EnumAttributeType::Vec2,
                false,
                EnumVertexMemberOffset::TexCoordsOffset.offset(),
                0,
                max_vertex_attribs,
            )?,
        );
        assert(attributes@ =~= spec_mesh_layout(material));
        vao.enable_attributes(C_VERTEX_SIZE, &attributes, max_vertex_attribs)
    }
}


/// The API objects created for a new entity: its vertex array, its vertex and
/// index buffers, and its model and wireframe uniform buffers.
#[derive(Debug, Copy, Clone, PartialEq, Eq, Structural, Hash)]
pub struct GlNewBufferIds {
    pub m_vao: u32,
    pub m_vbo: u32,
    pub m_ibo: u32,
    pub m_model_ubo: u32,
    pub m_wireframe_ubo: u32,
}

/// What the API reports of a shader's uniform blocks: the most bindings it
/// supports, the shader's active blocks, and the indices of its model and
/// wireframe blocks.
#[derive(Debug, Copy, Clone, PartialEq, Eq, Structural, Hash)]
pub struct GlBlockQuery {
    pub m_max_bindings: i32,
    pub m_active_blocks: i32,
    pub m_model_index: u32,
    pub m_wireframe_index: u32,
}

/// Binding 1 for the model block and 9 for the wireframe block.
pub const C_MODEL_BINDING: u32 = 1;
pub const C_WIREFRAME_BINDING: u32 = 9;

/// The instances a model or wireframe uniform buffer holds.
pub const C_UBO_INSTANCES: usize = 255;

/// Whether a shader's block at `binding`, with index `index`, can be bound.
pub open spec fn spec_block_bindable(q: GlBlockQuery, binding: u32, index: u32) -> bool {
    !(q.m_max_bindings < binding as i32 || binding > q.m_active_blocks as u32 || index == GL_INVALID_INDEX)
}

/// Whether a shader binds its blocks through the buffers: GLSL below 4.2
/// cannot bind them itself.
pub open spec fn spec_binds_blocks(shader: Shader) -> bool {
    shader.m_version < 420 && shader.m_shader_lang == EnumShaderLanguageType::Glsl
}

/// The uniform buffer of block `name` created under `id` for `kind`, bound
/// or only created.
pub open spec fn spec_new_ubo(u: GlUbo, name: Seq<char>, id: u32, kind: EnumUboTypeSize, bound: bool) -> bool {
    &&& spec_ubo_named(u, name)
    &&& u.m_buffer_id == id
    &&& u.m_capacity == spec_ubo_size(kind).0
    &&& u.m_length == spec_ubo_size(kind).0
    &&& u.m_count == spec_ubo_size(kind).1
    &&& u.m_state == (if bound {
        EnumBufferState::Bound
    } else {
        EnumBufferState::Created
    })
}

impl GlContext {
    /// Creates the buffers of a new mesh entity drawn with `shader`, in the
    /// API objects `ids`: a vertex buffer for all its vertices, an index
    /// buffer for all its indices where it has any (kept even where a later
    /// step fails), a vertex array with the mesh layout, and a model and a
    /// wireframe uniform buffer of `C_UBO_INSTANCES` instances, whose blocks
    /// are bound (per `blocks`) where the shader cannot bind them itself.
    /// Returns the attribute pointer calls and whether the blocks were bound.
    pub fn alloc_buffers(
        &mut self,
        entity: &REntity,
        shader: &Shader,
        ids: GlNewBufferIds,
        blocks: GlBlockQuery,
        max_vertex_attribs: i32,
    ) -> (r: Result<(Vec<GlAttributePointer>, bool), EnumOpenGLError>)
        requires
            entity.m_type is Mesh,
            C_VERTEX_SIZE * spec_total_vertices(entity.m_sub_meshes@, entity.m_sub_meshes@.len() as int)
                <= usize::MAX,
            4 * spec_total_indices(entity.m_sub_meshes@, entity.m_sub_meshes@.len() as int) <= usize::MAX,
        ensures
            final(self).m_extensions@ == old(self).m_extensions@,
            ({
                let material = match entity.m_type {
                    EnumPrimitive::Mesh(m) => m,
                    _ => EnumMaterial::Smooth,
                };
                let vertices = spec_total_vertices(entity.m_sub_meshes@, entity.m_sub_meshes@.len() as int);
                let indices = spec_total_indices(entity.m_sub_meshes@, entity.m_sub_meshes@.len() as int);
                let vcap = C_VERTEX_SIZE * vertices;
                let icap = 4 * indices;
                let buffers_ok = vcap != 0 && vcap < C_VBO_SIZE_LIMIT && (indices == 0 || icap
                    <= C_IBO_SIZE_LIMIT);
                let divisor_ok = !spec_divisor_refused(material, max_vertex_attribs);
                let layout_ok = spec_layout_supported(max_vertex_attribs);
                let bind = spec_binds_blocks(*shader);
                let blocks_ok = spec_block_bindable(blocks, C_MODEL_BINDING, blocks.m_model_index)
                    && spec_block_bindable(blocks, C_WIREFRAME_BINDING, blocks.m_wireframe_index);
                &&& r is Ok <==> buffers_ok && divisor_ok && layout_ok && (bind ==> blocks_ok)
                &&& !buffers_ok ==> r == Err::<(Vec<GlAttributePointer>, bool), EnumOpenGLError>(
                    EnumOpenGLError::InvalidBufferOperation(
                        crate::graphics::renderer::EnumGlBufferError::InvalidBufferSize,
                    ),
                ) && *final(self) == *old(self)
                &&& buffers_ok ==> final(self).m_ibo_buffers@ == old(self).m_ibo_buffers@ + (if indices
                    > 0 {
                    seq![
                        GlIbo {
                            m_buffer_id: ids.m_ibo,
                            m_capacity: icap as usize,
                            m_length: 0,
                            m_count: 0,
                            m_state: EnumBufferState::Created,
                        },
                    ]
                } else {
                    Seq::<GlIbo>::empty()
                })
                &&& buffers_ok && !divisor_ok ==> r == Err::<(Vec<GlAttributePointer>, bool), EnumOpenGLError>(
                    EnumOpenGLError::InvalidBufferOperation(
                        crate::graphics::renderer::EnumGlBufferError::InvalidAttributeDivisor,
                    ),
                )
                &&& buffers_ok && divisor_ok && !layout_ok ==> r == Err::<
                    (Vec<GlAttributePointer>, bool),
                    EnumOpenGLError,
                >(
                    EnumOpenGLError::InvalidBufferOperation(
                        crate::graphics::renderer::EnumGlBufferError::InvalidVertexAttribute,
                    ),
                )
                &&& buffers_ok && divisor_ok && layout_ok && bind && !blocks_ok ==> r == Err::<
                    (Vec<GlAttributePointer>, bool),
                    EnumOpenGLError,
                >(
                    EnumOpenGLError::InvalidBufferOperation(
                        crate::graphics::renderer::EnumGlBufferError::InvalidBlockBinding,
                    ),
                )
                &&& r is Err ==> final(self).m_vao_buffers@ == old(self).m_vao_buffers@
                    && final(self).m_vbo_buffers@ == old(self).m_vbo_buffers@
                    && final(self).m_ubo_buffers@ == old(self).m_ubo_buffers@
                &&& r matches Ok(v) ==> {
                    let n = old(self).m_ubo_buffers@.len();
                    &&& v.1 == bind
                    &&& v.0@ == spec_layout_pointers(spec_mesh_layout(material), 6, C_VERTEX_SIZE)
                    &&& final(self).m_vao_buffers@ == old(self).m_vao_buffers@.push(
                        GlVao { m_state: EnumBufferState::Bound, m_buffer_id: ids.m_vao },
                    )
                    &&& final(self).m_vbo_buffers@ == old(self).m_vbo_buffers@.push(
                        GlVbo {
                            m_buffer_id: ids.m_vbo,
                            m_capacity: vcap as usize,
                            m_length: 0,
                            m_count: 0,
                            m_type: GL_ARRAY_BUFFER,
                            m_state: EnumBufferState::Created,
                            m_old_buffer_id: 0,
                        },
                    )
                    &&& final(self).m_ubo_buffers@.len() == n + 2
                    &&& final(self).m_ubo_buffers@.take(n as int) == old(self).m_ubo_buffers@
                    &&& spec_new_ubo(
                        final(self).m_ubo_buffers@[n as int],
                        "ubo_model"@,
                        ids.m_model_ubo,
                        EnumUboTypeSize::Transform(C_UBO_INSTANCES),
                        bind,
                    )
                    &&& spec_new_ubo(
                        final(self).m_ubo_buffers@[n + 1int],
                        "ubo_wireframe"@,
                        ids.m_wireframe_ubo,
                        EnumUboTypeSize::Wireframe(C_UBO_INSTANCES),
                        bind,
                    )
                }
                &&& final(self).m_state == old(self).m_state
                &&& final(self).m_settings == old(self).m_settings
                &&& final(self).m_commands == old(self).m_commands
                &&& final(self).m_indirect_buffers@ == old(self).m_indirect_buffers@
            }),
    {
        let mut vao = GlVao::new(ids.m_vao);
        let vertices = entity.get_total_vertex_count();
        let vbo = GlVbo::new(GL_ARRAY_BUFFER, entity.get_size() * vertices, ids.m_vbo)?;
        let indices = entity.get_total_index_count();
        if indices > 0 {
            let ibo = GlIbo::new(4 * indices, ids.m_ibo)?;
            self.m_ibo_buffers.push(ibo);
        }
        let calls = Self::set_attributes(entity.m_type, &mut vao, max_vertex_attribs)?;
        let mut model_ubo = GlUbo::new(
            Some("ubo_model"),
            EnumUboTypeSize::Transform(C_UBO_INSTANCES),
            ids.m_model_ubo,
        );
        let mut wireframe_ubo = GlUbo::new(
            Some("ubo_wireframe"),
            EnumUboTypeSize::Wireframe(C_UBO_INSTANCES),
            ids.m_wireframe_ubo,
        );
        let bind = shader.m_version < 420 && shader.m_shader_lang == EnumShaderLanguageType::Glsl;
        if bind {
            model_ubo.bind_block(
                C_MODEL_BINDING,
                blocks.m_max_bindings,
                blocks.m_active_blocks,
                blocks.m_model_index,
            )?;
            wireframe_ubo.bind_block(
                C_WIREFRAME_BINDING,
                blocks.m_max_bindings,
                blocks.m_active_blocks,
                blocks.m_wireframe_index,
            )?;
        }
        self.m_vao_buffers.push(vao);
        self.m_vbo_buffers.push(vbo);
        self.m_ubo_buffers.push(model_ubo);
        self.m_ubo_buffers.push(wireframe_ubo);
        Ok((calls, bind))
    }
}


/// Index buffer `b` after write `w`, grown into `id` where the write needs it.
pub open spec fn spec_ibo_after(b: GlIbo, w: GlBufferWrite, id: u32) -> GlIbo {
    GlIbo {
        m_buffer_id: if w.m_expand_by != 0 {
            id
        } else {
            b.m_buffer_id
        },
        m_capacity: (b.m_capacity + w.m_expand_by) as usize,
        m_length: (b.m_length + w.m_size) as usize,
        m_count: (b.m_count + w.m_count) as usize,
        m_state: EnumBufferState::Bound,
    }
}

/// Vertex buffer `b` after write `w`, grown into `id` where the write needs
/// it (the buffer it left is remembered).
pub open spec fn spec_vbo_after(b: GlVbo, w: GlBufferWrite, id: u32) -> GlVbo {
    GlVbo {
        m_buffer_id: if w.m_expand_by != 0 {
            id
        } else {
            b.m_buffer_id
        },
        m_capacity: (b.m_capacity + w.m_expand_by) as usize,
        m_length: (b.m_length + w.m_size) as usize,
        m_count: (b.m_count + w.m_count) as usize,
        m_type: b.m_type,
        m_state: EnumBufferState::Bound,
        m_old_buffer_id: if w.m_expand_by != 0 {
            b.m_buffer_id
        } else {
            b.m_old_buffer_id
        },
    }
}

/// Whether a buffer of `length` bytes out of `capacity` takes `size` more
/// bytes, growing within `limit` where it must.
pub open spec fn spec_write_fits(length: usize, capacity: usize, size: int, limit: usize) -> bool {
    length + size > capacity ==> size + capacity <= limit
}

/// The indices stored for a primitive: shifted by its base index where draw
/// calls are minimized.
pub open spec fn spec_stored_indices(indices: Seq<u32>, base_index: i32, minimize: bool) -> Seq<u32> {
    if minimize {
        Seq::new(indices.len(), |k: int| (indices[k] + base_index) as u32)
    } else {
        indices
    }
}

/// The uploads of one primitive into the shared buffers: its indices (where
/// it has any) and its vertices.
#[derive(Debug, Clone)]
pub struct GlDataWrites {
    pub m_index_write: Option<GlBufferWrite>,
    pub m_indices: Vec<u32>,
    pub m_vertex_write: GlBufferWrite,
}

/// Whether the index buffer at `ibo_index` takes the indices of `p`.
pub open spec fn spec_ibo_takes(c: GlContext, ibo_index: usize, p: Primitive) -> bool {
    let ibo = c.m_ibo_buffers@[ibo_index as int];
    p.m_indices@.len() == 0 || spec_write_fits(
        ibo.m_length,
        ibo.m_capacity,
        4 * p.m_indices@.len() as int,
        C_IBO_SIZE_LIMIT,
    )
}

/// The write of the indices of `p` into the index buffer at `ibo_index`.
pub open spec fn spec_index_write(c: GlContext, ibo_index: usize, p: Primitive) -> GlBufferWrite {
    let ibo = c.m_ibo_buffers@[ibo_index as int];
    spec_buffer_write(ibo.m_length, ibo.m_capacity, 4, p.m_indices@.len() as usize)
}

/// The write of the vertices of `p` into the vertex buffer at `vbo_index`.
pub open spec fn spec_vertex_write(c: GlContext, vbo_index: usize, p: Primitive) -> GlBufferWrite {
    let vbo = c.m_vbo_buffers@[vbo_index as int];
    spec_buffer_write(vbo.m_length, vbo.m_capacity, C_VERTEX_SIZE, p.m_vertices@.len() as usize)
}

/// Why appending `p` to the buffers at `vbo_index` and `ibo_index` is
/// refused, if it is: indices that do not fit, no vertex, or vertices that
/// do not fit.
pub open spec fn spec_data_error(c: GlContext, vbo_index: usize, ibo_index: usize, p: Primitive) -> Option<
    EnumOpenGLError,
> {
    let vbo = c.m_vbo_buffers@[vbo_index as int];
    let vertices = p.m_vertices@.len();
    if !spec_ibo_takes(c, ibo_index, p) {
        Some(
            EnumOpenGLError::InvalidBufferOperation(
                crate::graphics::renderer::EnumGlBufferError::InvalidCapacitySize,
            ),
        )
    } else if vertices == 0 {
        Some(
            EnumOpenGLError::InvalidBufferOperation(
                crate::graphics::renderer::EnumGlBufferError::InvalidBufferSize,
            ),
        )
    } else if !spec_write_fits(vbo.m_length, vbo.m_capacity, C_VERTEX_SIZE * vertices as int, C_VBO_SIZE_LIMIT) {
        Some(
            EnumOpenGLError::InvalidBufferOperation(
                crate::graphics::renderer::EnumGlBufferError::InvalidCapacitySize,
            ),
        )
    } else {
        None
    }
}

/// The index buffers once the indices of `p` are appended, where it has some
/// and they fit (into `id` where the buffer grows).
pub open spec fn spec_ibos_after_data(c: GlContext, ibo_index: usize, p: Primitive, id: u32) -> Seq<GlIbo> {
    if p.m_indices@.len() > 0 && spec_ibo_takes(c, ibo_index, p) {
        c.m_ibo_buffers@.update(
            ibo_index as int,
            spec_ibo_after(c.m_ibo_buffers@[ibo_index as int], spec_index_write(c, ibo_index, p), id),
        )
    } else {
        c.m_ibo_buffers@
    }
}

/// The vertex buffers once the vertices of `p` are appended, where the whole
/// primitive is taken (into `id` where the buffer grows).
pub open spec fn spec_vbos_after_data(
    c: GlContext,
    vbo_index: usize,
    ibo_index: usize,
    p: Primitive,
    id: u32,
) -> Seq<GlVbo> {
    if spec_data_error(c, vbo_index, ibo_index, p) is None {
        c.m_vbo_buffers@.update(
            vbo_index as int,
            spec_vbo_after(c.m_vbo_buffers@[vbo_index as int], spec_vertex_write(c, vbo_index, p), id),
        )
    } else {
        c.m_vbo_buffers@
    }
}

/// Whether the buffers at `vbo_index` and `ibo_index` can be appended to
/// with `p` without a count or size overflowing.
pub open spec fn spec_data_pushable(c: GlContext, vbo_index: usize, ibo_index: usize, p: Primitive, base_index: i32) -> bool {
    &&& vbo_index < c.m_vbo_buffers@.len()
    &&& c.m_vbo_buffers@[vbo_index as int].m_length <= C_VBO_SIZE_LIMIT
    &&& c.m_vbo_buffers@[vbo_index as int].m_capacity <= C_VBO_SIZE_LIMIT
    &&& c.m_vbo_buffers@[vbo_index as int].m_count + p.m_vertices@.len() <= usize::MAX
    &&& C_VERTEX_SIZE * p.m_vertices@.len() <= isize::MAX
    &&& p.m_indices@.len() > 0 ==> {
        &&& ibo_index < c.m_ibo_buffers@.len()
        &&& c.m_ibo_buffers@[ibo_index as int].m_length <= C_IBO_SIZE_LIMIT
        &&& c.m_ibo_buffers@[ibo_index as int].m_capacity <= C_IBO_SIZE_LIMIT
        &&& c.m_ibo_buffers@[ibo_index as int].m_count + p.m_indices@.len() <= usize::MAX
        &&& 4 * p.m_indices@.len() <= isize::MAX
    }
    &&& c.m_settings.m_batch_mode == EnumRendererOptimizationMode::MinimizeDrawCalls ==> {
        &&& base_index >= 0
        &&& forall|k: int|
            0 <= k < p.m_indices@.len() ==> #[trigger] p.m_indices@[k] + base_index <= u32::MAX
    }
}

impl GlContext {
    /// Appends a primitive to the vertex buffer at `vbo_index` and its
    /// indices (shifted by `base_index` where draw calls are minimized) to the
    /// index buffer at `ibo_index`; a buffer that must grow moves to the new
    /// API buffer given. The indices go first, so they stay where the
    /// vertices are then refused. Returns the uploads to make.
    pub fn push_data(
        &mut self,
        primitive_info: &GlPrimitiveInfo,
        vbo_index: usize,
        ibo_index: usize,
        primitive: &Primitive,
        new_vbo_id: u32,
        new_ibo_id: u32,
    ) -> (r: Result<GlDataWrites, EnumOpenGLError>)
        requires
            spec_data_pushable(*old(self), vbo_index, ibo_index, *primitive, primitive_info.m_base_index),
        ensures
            final(self).m_extensions@ == old(self).m_extensions@,
            ({
                let indices = primitive.m_indices@;
                let minimize = old(self).m_settings.m_batch_mode
                    == EnumRendererOptimizationMode::MinimizeDrawCalls;
                let error = spec_data_error(*old(self), vbo_index, ibo_index, *primitive);
                &&& r is Ok <==> error is None
                &&& r matches Err(e) ==> error == Some(e)
                &&& final(self).m_ibo_buffers@ == spec_ibos_after_data(*old(self), ibo_index, *primitive, new_ibo_id)
                &&& final(self).m_vbo_buffers@ == spec_vbos_after_data(
                    *old(self),
                    vbo_index,
                    ibo_index,
                    *primitive,
                    new_vbo_id,
                )
                &&& r matches Ok(w) ==> {
                    &&& w.m_vertex_write == spec_vertex_write(*old(self), vbo_index, *primitive)
                    &&& w.m_index_write == (if indices.len() > 0 {
                        Some(spec_index_write(*old(self), ibo_index, *primitive))
                    } else {
                        None
                    })
                    &&& w.m_indices@ == (if indices.len() > 0 {
                        spec_stored_indices(indices, primitive_info.m_base_index, minimize)
                    } else {
                        Seq::<u32>::empty()
                    })
                }
                &&& final(self).m_state == old(self).m_state
                &&& final(self).m_settings == old(self).m_settings
                &&& final(self).m_commands == old(self).m_commands
                &&& final(self).m_vao_buffers@ == old(self).m_vao_buffers@
                &&& final(self).m_ubo_buffers@ == old(self).m_ubo_buffers@
                &&& final(self).m_indirect_buffers@ == old(self).m_indirect_buffers@
            }),
    {
        let base_index = primitive_info.m_base_index;
        let count = primitive.m_indices.len();
        let mut index_write: Option<GlBufferWrite> = None;
        let mut stored: Vec<u32> = Vec::new();
        if count > 0 {
            if self.m_settings.m_batch_mode == EnumRendererOptimizationMode::MinimizeDrawCalls {
                stored = offset_indices(&primitive.m_indices, base_index);
                assert(stored@ =~= spec_stored_indices(primitive.m_indices@, base_index, true));
            } else {
                stored = primitive.m_indices.clone();
                assert(stored@ =~= primitive.m_indices@);
            }
            let mut ibo = self.m_ibo_buffers[ibo_index];
            let w = ibo.plan_push(4, count)?;
            ibo.push(w, new_ibo_id);
            self.m_ibo_buffers.set(ibo_index, ibo);
            index_write = Some(w);
        }
        let mut vbo = self.m_vbo_buffers[vbo_index];
        let vertex_write = vbo.plan_push(C_VERTEX_SIZE, primitive.m_vertices.len())?;
        vbo.push(vertex_write, new_vbo_id);
        self.m_vbo_buffers.set(vbo_index, vbo);
        Ok(GlDataWrites { m_index_write: index_write, m_indices: stored, m_vertex_write: vertex_write })
    }
}


/// Whether `j` is the first uniform buffer of block `name`.
pub open spec fn spec_first_ubo(ubos: Seq<GlUbo>, name: Seq<char>, j: int) -> bool {
    &&& 0 <= j < ubos.len()
    &&& spec_ubo_named(ubos[j], name)
    &&& forall|k: int| 0 <= k < j ==> !spec_ubo_named(#[trigger] ubos[k], name)
}

/// What adding a primitive to the buffers asks of the API: its data uploads,
/// the attribute pointers again where its vertex buffer moved, and the
/// writes of its wireframe flag and model matrix.
#[derive(Debug, Clone)]
pub struct GlPrimitiveUploads {
    pub m_data: GlDataWrites,
    pub m_pointers: Option<Vec<GlAttributePointer>>,
    pub m_ubo_writes: Vec<GlUboWrite>,
}

/// A block has one first buffer.
pub proof fn lemma_first_ubo_unique(ubos: Seq<GlUbo>, name: Seq<char>, a: int, b: int)
    requires
        spec_first_ubo(ubos, name, a),
        spec_first_ubo(ubos, name, b),
    ensures
        a == b,
{
    if a < b {
        assert(!spec_ubo_named(ubos[a], name));
    }
    if b < a {
        assert(!spec_ubo_named(ubos[b], name));
    }
}

/// Buffers with the same names have the same first buffer of each block.
pub proof fn lemma_first_ubo_kept(a: Seq<GlUbo>, b: Seq<GlUbo>, name: Seq<char>, j: int)
    requires
        a.len() == b.len(),
        forall|i: int| 0 <= i < a.len() ==> (#[trigger] a[i]).m_name == b[i].m_name,
    ensures
        spec_first_ubo(a, name, j) == spec_first_ubo(b, name, j),
{
    if spec_first_ubo(a, name, j) {
        assert forall|k: int| 0 <= k < j implies !spec_ubo_named(#[trigger] b[k], name) by {
            assert(a[k].m_name == b[k].m_name);
        }
        assert(a[j].m_name == b[j].m_name);
    }
    if spec_first_ubo(b, name, j) {
        assert forall|k: int| 0 <= k < j implies !spec_ubo_named(#[trigger] a[k], name) by {
            assert(a[k].m_name == b[k].m_name);
        }
        assert(a[j].m_name == b[j].m_name);
    }
}

impl GlContext {
    /// Appends primitive `primitive` of an entity of `shading` (see
    /// `push_data`); where its vertex buffer moved to another API buffer, the
    /// layout is enabled on the vertex array at `vao_index` again; then its
    /// wireframe flag (off) and its model matrix are written at its entity
    /// offset in the first wireframe and model blocks.
    pub fn push_buffers(
        &mut self,
        new_primitive: &GlPrimitiveInfo,
        vao_index: usize,
        vbo_index: usize,
        ibo_index: usize,
        primitive: &Primitive,
        shading: EnumPrimitive,
        new_vbo_id: u32,
        new_ibo_id: u32,
        max_vertex_attribs: i32,
    ) -> (r: Result<GlPrimitiveUploads, EnumOpenGLError>)
        requires
            spec_data_pushable(*old(self), vbo_index, ibo_index, *primitive, new_primitive.m_base_index),
            shading is Mesh,
            vao_index < old(self).m_vao_buffers@.len(),
            exists|j: int| spec_first_ubo(old(self).m_ubo_buffers@, "ubo_wireframe"@, j),
            exists|k: int| spec_first_ubo(old(self).m_ubo_buffers@, "ubo_model"@, k),
            C_MAT4_SIZE * new_primitive.m_entity_offset <= usize::MAX,
        ensures
            final(self).m_extensions@ == old(self).m_extensions@,
            forall|j: int, k: int|
                spec_first_ubo(old(self).m_ubo_buffers@, "ubo_wireframe"@, j) && spec_first_ubo(
                    old(self).m_ubo_buffers@,
                    "ubo_model"@,
                    k,
                ) ==> ({
                    let ubos = old(self).m_ubo_buffers@;
                    let offset = new_primitive.m_entity_offset;
                    let material = match shading {
                        EnumPrimitive::Mesh(m) => m,
                        _ => EnumMaterial::Smooth,
                    };
                    let data_error = spec_data_error(*old(self), vbo_index, ibo_index, *primitive);
                    let vbo = spec_vbos_after_data(*old(self), vbo_index, ibo_index, *primitive, new_vbo_id)[vbo_index as int];
                    let migrated = vbo.m_old_buffer_id != vbo.m_buffer_id;
                    let divisor_refused = spec_divisor_refused(material, max_vertex_attribs);
                    let attributes_ok = !migrated || (!divisor_refused && spec_layout_supported(max_vertex_attribs));
                    let wireframe_ok = offset <= ubos[j].m_count;
                    let model_ok = offset <= ubos[k].m_count;
                    let offset_error = EnumOpenGLError::InvalidBufferOperation(
                        crate::graphics::renderer::EnumGlBufferError::InvalidBufferOffset,
                    );
                    &&& r is Ok <==> data_error is None && attributes_ok && wireframe_ok && model_ok
                    &&& data_error matches Some(e) ==> r == Err::<GlPrimitiveUploads, EnumOpenGLError>(e)
                    &&& data_error is None && migrated && divisor_refused ==> r == Err::<
                        GlPrimitiveUploads,
                        EnumOpenGLError,
                    >(
                        EnumOpenGLError::InvalidBufferOperation(
                            crate::graphics::renderer::EnumGlBufferError::InvalidAttributeDivisor,
                        ),
                    )
                    &&& data_error is None && migrated && !divisor_refused && !spec_layout_supported(
                        max_vertex_attribs,
                    ) ==> r == Err::<GlPrimitiveUploads, EnumOpenGLError>(
                        EnumOpenGLError::InvalidBufferOperation(
                            crate::graphics::renderer::EnumGlBufferError::InvalidVertexAttribute,
                        ),
                    )
                    &&& data_error is None && attributes_ok && !(wireframe_ok && model_ok) ==> r == Err::<
                        GlPrimitiveUploads,
                        EnumOpenGLError,
                    >(offset_error)
                    &&& final(self).m_ibo_buffers@ == spec_ibos_after_data(*old(self), ibo_index, *primitive, new_ibo_id)
                    &&& final(self).m_vbo_buffers@ == spec_vbos_after_data(
                        *old(self),
                        vbo_index,
                        ibo_index,
                        *primitive,
                        new_vbo_id,
                    )
                    &&& final(self).m_vao_buffers@ == (if data_error is None && migrated && !divisor_refused {
                        old(self).m_vao_buffers@.update(
                            vao_index as int,
                            GlVao { m_state: EnumBufferState::Bound, ..old(self).m_vao_buffers@[vao_index as int] },
                        )
                    } else {
                        old(self).m_vao_buffers@
                    })
                    &&& final(self).m_ubo_buffers@ == (if data_error is None && attributes_ok {
                        let wired = ubos.update(j, GlUbo { m_state: EnumBufferState::Bound, ..ubos[j] });
                        if wireframe_ok {
                            wired.update(k, GlUbo { m_state: EnumBufferState::Bound, ..ubos[k] })
                        } else {
                            wired
                        }
                    } else {
                        ubos
                    })
                    &&& r matches Ok(u) ==> {
                        &&& u.m_data.m_vertex_write == spec_vertex_write(*old(self), vbo_index, *primitive)
                        &&& u.m_data.m_index_write == (if primitive.m_indices@.len() > 0 {
                            Some(spec_index_write(*old(self), ibo_index, *primitive))
                        } else {
                            None
                        })
                        &&& u.m_data.m_indices@ == (if primitive.m_indices@.len() > 0 {
                            spec_stored_indices(
                                primitive.m_indices@,
                                new_primitive.m_base_index,
                                old(self).m_settings.m_batch_mode
                                    == EnumRendererOptimizationMode::MinimizeDrawCalls,
                            )
                        } else {
                            Seq::<u32>::empty()
                        })
                        &&& u.m_pointers is Some <==> migrated
                        &&& u.m_pointers matches Some(calls) ==> calls@ == spec_layout_pointers(
                            spec_mesh_layout(material),
                            6,
                            C_VERTEX_SIZE,
                        )
                        &&& u.m_ubo_writes@ == seq![
                            GlUboWrite {
                                m_offset: (16 * offset) as usize,
                                m_size: 4,
                                m_source: crate::graphics::buffer::EnumUboSource::Integer(0),
                            },
                            GlUboWrite {
                                m_offset: (C_MAT4_SIZE * offset) as usize,
                                m_size: C_MAT4_SIZE,
                                m_source: crate::graphics::buffer::EnumUboSource::Matrix(0),
                            },
                        ]
                    }
                    &&& final(self).m_state == old(self).m_state
                    &&& final(self).m_settings == old(self).m_settings
                    &&& final(self).m_commands == old(self).m_commands
                    &&& final(self).m_indirect_buffers@ == old(self).m_indirect_buffers@
                }),
    {
        let data = self.push_data(new_primitive, vbo_index, ibo_index, primitive, new_vbo_id, new_ibo_id)?;
        let mut pointers: Option<Vec<GlAttributePointer>> = None;
        if self.m_vbo_buffers[vbo_index].has_migrated() {
            let mut vao = self.m_vao_buffers[vao_index];
            let calls = Self::set_attributes(shading, &mut vao, max_vertex_attribs);
            self.m_vao_buffers.set(vao_index, vao);
            match calls {
                Err(e) => {
                    return Err(e);
                },
                Ok(c) => {
                    pointers = Some(c);
                },
            }
        }
        let offset = new_primitive.m_entity_offset;
        let mut writes: Vec<GlUboWrite> = Vec::new();
        let w = match self.find_ubo("ubo_wireframe") {
            Some(i) => i,
            None => {
                proof {
                    let j = choose|j: int| spec_first_ubo(old(self).m_ubo_buffers@, "ubo_wireframe"@, j);
                    assert(spec_ubo_named(self.m_ubo_buffers@[j], "ubo_wireframe"@));
                }
                return Err(EnumOpenGLError::InvalidContext);
            },
        };
        let ghost before = self.m_ubo_buffers@;
        let mut ubo = self.m_ubo_buffers[w];
        let wrote = ubo.push(EnumUboType::Wireframe(false, offset));
        self.m_ubo_buffers.set(w, ubo);
        proof {
            reveal_strlit("ubo_wireframe");
            reveal_strlit("ubo_model");
            assert(before =~= old(self).m_ubo_buffers@);
            assert(spec_first_ubo(old(self).m_ubo_buffers@, "ubo_wireframe"@, w as int));
            assert forall|k: int| spec_first_ubo(old(self).m_ubo_buffers@, "ubo_model"@, k) implies spec_first_ubo(
                self.m_ubo_buffers@,
                "ubo_model"@,
                k,
            ) && k != w by {
                assert forall|i: int| 0 <= i < old(self).m_ubo_buffers@.len() implies (#[trigger] old(
                    self,
                ).m_ubo_buffers@[i]).m_name == self.m_ubo_buffers@[i].m_name by {}
                lemma_first_ubo_kept(old(self).m_ubo_buffers@, self.m_ubo_buffers@, "ubo_model"@, k);
                if k == w {
                    assert(spec_ubo_named(old(self).m_ubo_buffers@[k], "ubo_model"@));
                    assert(spec_ubo_named(old(self).m_ubo_buffers@[k], "ubo_wireframe"@));
                    assert("ubo_model"@.len() != "ubo_wireframe"@.len());
                }
            }
            assert forall|j: int| spec_first_ubo(old(self).m_ubo_buffers@, "ubo_wireframe"@, j) implies j == w by {
                if j < w {
                    assert(!spec_ubo_named(old(self).m_ubo_buffers@[j], "ubo_wireframe"@));
                }
                if w < j {
                    assert(!spec_ubo_named(old(self).m_ubo_buffers@[w as int], "ubo_wireframe"@));
                }
            }
        }
        match wrote {
            Err(e) => {
                return Err(e);
            },
            Ok(ws) => {
                writes.push(ws[0]);
            },
        }
        let m = match self.find_ubo("ubo_model") {
            Some(i) => i,
            None => {
                proof {
                    let k = choose|k: int| spec_first_ubo(old(self).m_ubo_buffers@, "ubo_model"@, k);
                    assert(spec_ubo_named(self.m_ubo_buffers@[k], "ubo_model"@));
                }
                return Err(EnumOpenGLError::InvalidContext);
            },
        };
        proof {
            assert(spec_first_ubo(self.m_ubo_buffers@, "ubo_model"@, m as int));
            assert forall|k: int| spec_first_ubo(old(self).m_ubo_buffers@, "ubo_model"@, k) implies k == m by {
                lemma_first_ubo_kept(old(self).m_ubo_buffers@, self.m_ubo_buffers@, "ubo_model"@, k);
                if k < m {
                    assert(!spec_ubo_named(self.m_ubo_buffers@[k], "ubo_model"@));
                }
                if m < k {
                    assert(!spec_ubo_named(old(self).m_ubo_buffers@[m as int], "ubo_model"@));
                }
            }
        }
        let mut ubo = self.m_ubo_buffers[m];
        let wrote = ubo.push(EnumUboType::Transform(offset));
        self.m_ubo_buffers.set(m, ubo);
        match wrote {
            Err(e) => {
                return Err(e);
            },
            Ok(ws) => {
                writes.push(ws[0]);
            },
        }
        Ok(GlPrimitiveUploads { m_data: data, m_pointers: pointers, m_ubo_writes: writes })
    }
}


impl GlContext {
    /// The context's answer to `event`: a new framebuffer size becomes the
    /// drawing area (the event is handled); other events are not handled.
    pub fn on_event(&self, event: &EnumEvent) -> (r: (bool, Option<GlCall>))
        ensures
            r == match *event {
                EnumEvent::FramebufferEvent(w, h) => (true, Some(GlCall::Viewport(0, 0, w as i32, h as i32))),
                _ => (false, None),
            },
    {
        match event {
            EnumEvent::FramebufferEvent(w, h) => (true, Some(GlCall::Viewport(0, 0, *w as i32, *h as i32))),
            _ => (false, None),
        }
    }
}


/// Whether some name of `v` is `x`.
pub open spec fn spec_has_name(v: Seq<String>, x: Seq<char>) -> bool {
    exists|i: int| 0 <= i < v.len() && (#[trigger] v[i])@ == x
}

/// Whether no name occurs twice in `v`.
pub open spec fn spec_names_distinct(v: Seq<String>) -> bool {
    forall|i: int, j: int| 0 <= i < j < v.len() ==> (#[trigger] v[i])@ != (#[trigger] v[j])@
}

/// Whether `x` is one of the names of `v`.
fn has_name(v: &Vec<String>, x: &str) -> (r: bool)
    ensures
        r == spec_has_name(v@, x@),
{
    let mut i: usize = 0;
    while i < v.len()
        invariant
            0 <= i <= v@.len(),
            forall|j: int| 0 <= j < i ==> (#[trigger] v@[j])@ != x@,
        decreases v.len() - i,
    {
        if str_eq(v[i].as_str(), x) {
            return true;
        }
        i = i + 1;
    }
    false
}

impl GlContext {
    /// Records the extensions the API reported, each name once (in the order
    /// first reported).
    pub fn set_extensions(&mut self, names: Vec<String>)
        ensures
            spec_names_distinct(final(self).m_extensions@),
            forall|x: Seq<char>| spec_has_name(final(self).m_extensions@, x) == spec_has_name(names@, x),
            final(self).m_state == old(self).m_state,
            final(self).m_settings == old(self).m_settings,
            final(self).m_commands == old(self).m_commands,
            final(self).m_vao_buffers@ == old(self).m_vao_buffers@,
            final(self).m_vbo_buffers@ == old(self).m_vbo_buffers@,
            final(self).m_indirect_buffers@ == old(self).m_indirect_buffers@,
            final(self).m_ibo_buffers@ == old(self).m_ibo_buffers@,
            final(self).m_ubo_buffers@ == old(self).m_ubo_buffers@,
    {
        let mut kept: Vec<String> = Vec::new();
        let mut k: usize = 0;
        while k < names.len()
            invariant
                0 <= k <= names@.len(),
                spec_names_distinct(kept@),
                forall|i: int| 0 <= i < kept@.len() ==> spec_has_name(names@.take(k as int), (#[trigger] kept@[i])@),
                forall|j: int| 0 <= j < k ==> spec_has_name(kept@, (#[trigger] names@[j])@),
            decreases names.len() - k,
        {
            let ghost before = kept@;
            if !has_name(&kept, names[k].as_str()) {
                kept.push(names[k].clone());
                assert(kept@[before.len() as int]@ == names@[k as int]@);
            }
            proof {
                assert forall|i: int| 0 <= i < kept@.len() implies spec_has_name(
                    names@.take(k + 1),
                    (#[trigger] kept@[i])@,
                ) by {
                    if i < before.len() {
                        assert(kept@[i] == before[i]);
                        let m = choose|m: int| 0 <= m < names@.take(k as int).len() && (#[trigger] names@.take(k as int)[m])@ == before[i]@;
                        assert(names@.take(k + 1)[m] == names@.take(k as int)[m]);
                    } else {
                        assert(names@.take(k + 1)[k as int] == names@[k as int]);
                    }
                }
                assert forall|j: int| 0 <= j < k + 1 implies spec_has_name(kept@, (#[trigger] names@[j])@) by {
                    if j < k {
                        let m = choose|m: int| 0 <= m < before.len() && (#[trigger] before[m])@ == names@[j]@;
                        assert(kept@[m] == before[m]);
                    } else if kept@.len() > before.len() {
                        assert(kept@[before.len() as int]@ == names@[j]@);
                    }
                }
            }
            k = k + 1;
        }
        proof {
            assert(names@.take(k as int) =~= names@);
            assert forall|x: Seq<char>| spec_has_name(kept@, x) == spec_has_name(names@, x) by {
                if spec_has_name(names@, x) {
                    let j = choose|j: int| 0 <= j < names@.len() && (#[trigger] names@[j])@ == x;
                    assert(spec_has_name(kept@, names@[j]@));
                }
                if spec_has_name(kept@, x) {
                    let i = choose|i: int| 0 <= i < kept@.len() && (#[trigger] kept@[i])@ == x;
                    assert(spec_has_name(names@.take(k as int), kept@[i]@));
                }
            }
        }
        self.m_extensions = kept;
    }

    /// Whether the API reported the extension `desired_extension`.
    pub fn check_extension(&self, desired_extension: &str) -> (r: bool)
        ensures
            r == exists|i: int|
                0 <= i < self.m_extensions@.len() && (#[trigger] self.m_extensions@[i])@
                    == desired_extension@,
    {
        let mut i: usize = 0;
        while i < self.m_extensions.len()
            invariant
                0 <= i <= self.m_extensions@.len(),
                forall|j: int| 0 <= j < i ==> (#[trigger] self.m_extensions@[j])@ != desired_extension@,
            decreases self.m_extensions.len() - i,
        {
            if str_eq(self.m_extensions[i].as_str(), desired_extension) {
                return true;
            }
            i = i + 1;
        }
        false
    }
}

} // verus!
