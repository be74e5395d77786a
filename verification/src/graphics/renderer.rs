//! The renderer front end: the options it is configured with, its lifecycle,
//! and the identifiers it hands out to the entities it draws.

use vstd::prelude::*;
use vstd::set_lib::{lemma_int_range, lemma_len_subset, set_int_range};
use vstd::seq_lib::seq_to_set_is_finite;

use crate::events::EnumEvent;
use crate::hints::{set_hint_in, spec_with_hint, TraitHintKind};
use crate::graphics::gl_context::{spec_context_freed, GlCall, GlContext};
use crate::assets::r_assets::REntity;
use crate::graphics::gl_enqueue::{spec_enqueue_fits, spec_enqueued, GlEnqueueIds, GlEnqueuePlan};
use crate::graphics::shader::Shader;

verus! {

#[derive(Debug, Copy, Clone, PartialEq, Eq, Structural, Hash)]
pub enum EnumRendererState {
    NotCreated,
    Created,
    Submitted,
    Deleted,
}

/// How API calls are checked for errors. `NoChecking` turns checking off.
#[derive(Debug, Copy, Clone, PartialEq, Eq, Structural, Hash)]
pub enum EnumRendererCallCheckingMode {
    NoChecking,
    Async,
    Sync,
    SyncAndAsync,
}

impl Default for EnumRendererCallCheckingMode {
    fn default() -> (r: Self)
        ensures
            r == EnumRendererCallCheckingMode::Async,
    {
        EnumRendererCallCheckingMode::Async
    }
}

#[derive(Debug, Copy, Clone, PartialEq, Eq, Structural, Hash)]
pub enum EnumRendererApi {
    OpenGL,
    Vulkan,
}

impl Default for EnumRendererApi {
    fn default() -> (r: Self)
        ensures
            r == EnumRendererApi::OpenGL,
    {
        EnumRendererApi::OpenGL
    }
}

#[derive(Debug, Copy, Clone, PartialEq, Eq, Structural, Hash)]
pub enum EnumRendererTarget {
    Runtime,
    Editor,
}

impl Default for EnumRendererTarget {
    fn default() -> (r: Self)
        ensures
            r == EnumRendererTarget::Runtime,
    {
        EnumRendererTarget::Runtime
    }
}

#[derive(Debug, Copy, Clone, PartialEq, Eq, Structural, Hash)]
pub enum EnumRendererCull {
    Front,
    Back,
    FrontAndBack,
}

impl Default for EnumRendererCull {
    fn default() -> (r: Self)
        ensures
            r == EnumRendererCull::Back,
    {
        EnumRendererCull::Back
    }
}

#[derive(Debug, Copy, Clone, PartialEq, Eq, Structural, Hash)]
pub enum EnumRendererBlendingFactor {
    Zero,
    One,
    SrcColor,
    OneMinusSrcColor,
    DstColor,
    OneMinusDstColor,
    SrcAlpha,
    OneMinusSrcAlpha,
    DstAlpha,
    OneMinusDstAlpha,
    ConstantColor,
    OneMinusConstantColor,
    ConstantAlpha,
    OneMinusConstantAlpha,
}

impl Default for EnumRendererBlendingFactor {
    fn default() -> (r: Self)
        ensures
            r == EnumRendererBlendingFactor::OneMinusSrcAlpha,
    {
        EnumRendererBlendingFactor::OneMinusSrcAlpha
    }
}

#[derive(Debug, Copy, Clone, PartialEq, Eq, Structural, Hash)]
pub enum EnumRendererRenderPrimitiveAs {
    Points,
    Filled,
    Wireframe,
    SolidWireframe,
}

impl Default for EnumRendererRenderPrimitiveAs {
    fn default() -> (r: Self)
        ensures
            r == EnumRendererRenderPrimitiveAs::SolidWireframe,
    {
        EnumRendererRenderPrimitiveAs::SolidWireframe
    }
}

#[derive(Debug, Copy, Clone, PartialEq, Eq, Structural, Hash)]
pub enum EnumRendererOptimizationMode {
    NoOptimizations,
    MinimizeDrawCalls,
}

impl Default for EnumRendererOptimizationMode {
    fn default() -> (r: Self)
        ensures
            r == EnumRendererOptimizationMode::NoOptimizations,
    {
        EnumRendererOptimizationMode::NoOptimizations
    }
}

/// The name a blending factor is shown with.
pub open spec fn spec_blending_factor_name(f: EnumRendererBlendingFactor) -> Seq<char> {
    match f {
        EnumRendererBlendingFactor::Zero => "Zero"@,
        EnumRendererBlendingFactor::One => "One"@,
        EnumRendererBlendingFactor::SrcColor => "Source color"@,
        EnumRendererBlendingFactor::OneMinusSrcColor => "One minus source color"@,
        EnumRendererBlendingFactor::DstColor => "Destination color"@,
        EnumRendererBlendingFactor::OneMinusDstColor => "One minus dst color"@,
        EnumRendererBlendingFactor::SrcAlpha => "Source alpha"@,
        EnumRendererBlendingFactor::OneMinusSrcAlpha => "One minus src alpha"@,
        EnumRendererBlendingFactor::DstAlpha => "Destination alpha"@,
        EnumRendererBlendingFactor::OneMinusDstAlpha => "One minus dst alpha"@,
        EnumRendererBlendingFactor::ConstantColor => "Constant color"@,
        EnumRendererBlendingFactor::OneMinusConstantColor => "One minus constant color"@,
        EnumRendererBlendingFactor::ConstantAlpha => "Constant alpha"@,
        EnumRendererBlendingFactor::OneMinusConstantAlpha => "One minus constant alpha"@,
    }
}

impl EnumRendererBlendingFactor {
    pub fn to_string(&self) -> (r: String)
        ensures
            r@ == spec_blending_factor_name(*self),
    {
        let s = match self {
            EnumRendererBlendingFactor::Zero => "Zero",
            EnumRendererBlendingFactor::One => "One",
            EnumRendererBlendingFactor::SrcColor => "Source color",
            EnumRendererBlendingFactor::OneMinusSrcColor => "One minus source color",
            EnumRendererBlendingFactor::DstColor => "Destination color",
            EnumRendererBlendingFactor::OneMinusDstColor => "One minus dst color",
            EnumRendererBlendingFactor::SrcAlpha => "Source alpha",
            EnumRendererBlendingFactor::OneMinusSrcAlpha => "One minus src alpha",
            EnumRendererBlendingFactor::DstAlpha => "Destination alpha",
            EnumRendererBlendingFactor::OneMinusDstAlpha => "One minus dst alpha",
            EnumRendererBlendingFactor::ConstantColor => "Constant color",
            EnumRendererBlendingFactor::OneMinusConstantColor => "One minus constant color",
            EnumRendererBlendingFactor::ConstantAlpha => "Constant alpha",
            EnumRendererBlendingFactor::OneMinusConstantAlpha => "One minus constant alpha",
        };
        s.to_owned()
    }
}

/// The name a culling mode is shown with.
pub open spec fn spec_cull_name(c: EnumRendererCull) -> Seq<char> {
    match c {
        EnumRendererCull::Front => "Front face culling"@,
        EnumRendererCull::Back => "Back face culling"@,
        EnumRendererCull::FrontAndBack => "Front and back face culling"@,
    }
}

impl EnumRendererCull {
    pub fn to_string(&self) -> (r: String)
        ensures
            r@ == spec_cull_name(*self),
    {
        let s = match self {
            EnumRendererCull::Front => "Front face culling",
            EnumRendererCull::Back => "Back face culling",
            EnumRendererCull::FrontAndBack => "Front and back face culling",
        };
        s.to_owned()
    }
}

/// The name a primitive drawing mode is shown with.
pub open spec fn spec_primitive_as_name(p: EnumRendererRenderPrimitiveAs) -> Seq<char> {
    match p {
        EnumRendererRenderPrimitiveAs::Filled => "Filled"@,
        EnumRendererRenderPrimitiveAs::Points => "Point"@,
        EnumRendererRenderPrimitiveAs::Wireframe => "Wireframe"@,
        EnumRendererRenderPrimitiveAs::SolidWireframe => "Solid wireframe"@,
    }
}

impl EnumRendererRenderPrimitiveAs {
    pub fn to_string(&self) -> (r: String)
        ensures
            r@ == spec_primitive_as_name(*self),
    {
        let s = match self {
            EnumRendererRenderPrimitiveAs::Filled => "Filled",
            EnumRendererRenderPrimitiveAs::Points => "Point",
            EnumRendererRenderPrimitiveAs::Wireframe => "Wireframe",
            EnumRendererRenderPrimitiveAs::SolidWireframe => "Solid wireframe",
        };
        s.to_owned()
    }
}

/// An option of the renderer, set before it is applied.
#[derive(Debug, Copy, Clone, Eq, Hash)]
pub enum EnumRendererHint {
    ForceApiVersion(u32),
    /// Batch the primitives drawn with one shader into shared buffers and one
    /// draw command (`MinimizeDrawCalls`, the default), or send one draw per primitive.
    Optimization(EnumRendererOptimizationMode),
    SplitLargeVertexBuffers(Option<usize>),
    SplitLargeIndexBuffers(Option<usize>),
    /// How API calls are checked for errors; `Async` by default.
    ApiCallChecking(EnumRendererCallCheckingMode),
    DepthTest(bool),
    /// The faces culled, or none; back faces by default.
    CullFacing(Option<EnumRendererCull>),
    MSAA(Option<u8>),
    SRGB(bool),
    Blending(Option<(EnumRendererBlendingFactor, EnumRendererBlendingFactor)>),
}

/// The payload of a renderer hint.
#[derive(Debug, Copy, Clone, Eq, Hash)]
pub enum EnumRendererHintValue {
    ApiVersion(u32),
    Optimization(EnumRendererOptimizationMode),
    Limit(Option<usize>),
    CallChecking(EnumRendererCallCheckingMode),
    Flag(bool),
    Cull(Option<EnumRendererCull>),
    SampleCount(Option<u8>),
    Blending(Option<(EnumRendererBlendingFactor, EnumRendererBlendingFactor)>),
}

fn same_blending(
    a: &Option<(EnumRendererBlendingFactor, EnumRendererBlendingFactor)>,
    b: &Option<(EnumRendererBlendingFactor, EnumRendererBlendingFactor)>,
) -> (r: bool)
    ensures
        r == (*a == *b),
{
    match (a, b) {
        (None, None) => true,
        (Some((s1, d1)), Some((s2, d2))) => *s1 == *s2 && *d1 == *d2,
        _ => false,
    }
}

impl PartialEq for EnumRendererHint {
    fn eq(&self, other: &Self) -> (r: bool) {
        match (self, other) {
            (EnumRendererHint::ForceApiVersion(a), EnumRendererHint::ForceApiVersion(b)) => *a == *b,
            (EnumRendererHint::Optimization(a), EnumRendererHint::Optimization(b)) => *a == *b,
            (EnumRendererHint::SplitLargeVertexBuffers(a), EnumRendererHint::SplitLargeVertexBuffers(b)) => *a == *b,
            (EnumRendererHint::SplitLargeIndexBuffers(a), EnumRendererHint::SplitLargeIndexBuffers(b)) => *a == *b,
            (EnumRendererHint::ApiCallChecking(a), EnumRendererHint::ApiCallChecking(b)) => *a == *b,
            (EnumRendererHint::DepthTest(a), EnumRendererHint::DepthTest(b)) => *a == *b,
            (EnumRendererHint::CullFacing(a), EnumRendererHint::CullFacing(b)) => *a == *b,
            (EnumRendererHint::MSAA(a), EnumRendererHint::MSAA(b)) => *a == *b,
            (EnumRendererHint::SRGB(a), EnumRendererHint::SRGB(b)) => *a == *b,
            (EnumRendererHint::Blending(a), EnumRendererHint::Blending(b)) => same_blending(a, b),
            _ => false,
        }
    }
}

impl vstd::std_specs::cmp::PartialEqSpecImpl for EnumRendererHint {
    open spec fn obeys_eq_spec() -> bool {
        true
    }

    open spec fn eq_spec(&self, other: &Self) -> bool {
        *self == *other
    }
}

impl PartialEq for EnumRendererHintValue {
    fn eq(&self, other: &Self) -> (r: bool) {
        match (self, other) {
            (EnumRendererHintValue::ApiVersion(a), EnumRendererHintValue::ApiVersion(b)) => *a == *b,
            (EnumRendererHintValue::Optimization(a), EnumRendererHintValue::Optimization(b)) => *a == *b,
            (EnumRendererHintValue::Limit(a), EnumRendererHintValue::Limit(b)) => *a == *b,
            (EnumRendererHintValue::CallChecking(a), EnumRendererHintValue::CallChecking(b)) => *a == *b,
            (EnumRendererHintValue::Flag(a), EnumRendererHintValue::Flag(b)) => *a == *b,
            (EnumRendererHintValue::Cull(a), EnumRendererHintValue::Cull(b)) => *a == *b,
            (EnumRendererHintValue::SampleCount(a), EnumRendererHintValue::SampleCount(b)) => *a == *b,
            (EnumRendererHintValue::Blending(a), EnumRendererHintValue::Blending(b)) => same_blending(a, b),
            _ => false,
        }
    }
}

impl vstd::std_specs::cmp::PartialEqSpecImpl for EnumRendererHintValue {
    open spec fn obeys_eq_spec() -> bool {
        true
    }

    open spec fn eq_spec(&self, other: &Self) -> bool {
        *self == *other
    }
}

pub open spec fn spec_renderer_hint_kind(h: EnumRendererHint) -> nat {
    match h {
        EnumRendererHint::ForceApiVersion(_) => 0,
        EnumRendererHint::Optimization(_) => 1,
        EnumRendererHint::SplitLargeVertexBuffers(_) => 2,
        EnumRendererHint::SplitLargeIndexBuffers(_) => 3,
        EnumRendererHint::ApiCallChecking(_) => 4,
        EnumRendererHint::DepthTest(_) => 5,
        EnumRendererHint::CullFacing(_) => 6,
        EnumRendererHint::MSAA(_) => 7,
        EnumRendererHint::SRGB(_) => 8,
        EnumRendererHint::Blending(_) => 9,
    }
}

pub open spec fn spec_renderer_hint_value(h: EnumRendererHint) -> EnumRendererHintValue {
    match h {
        EnumRendererHint::ForceApiVersion(v) => EnumRendererHintValue::ApiVersion(v),
        EnumRendererHint::Optimization(m) => EnumRendererHintValue::Optimization(m),
        EnumRendererHint::SplitLargeVertexBuffers(l) => EnumRendererHintValue::Limit(l),
        EnumRendererHint::SplitLargeIndexBuffers(l) => EnumRendererHintValue::Limit(l),
        EnumRendererHint::ApiCallChecking(m) => EnumRendererHintValue::CallChecking(m),
        EnumRendererHint::DepthTest(b) => EnumRendererHintValue::Flag(b),
        EnumRendererHint::CullFacing(c) => EnumRendererHintValue::Cull(c),
        EnumRendererHint::MSAA(s) => EnumRendererHintValue::SampleCount(s),
        EnumRendererHint::SRGB(b) => EnumRendererHintValue::Flag(b),
        EnumRendererHint::Blending(b) => EnumRendererHintValue::Blending(b),
    }
}

impl TraitHintKind for EnumRendererHint {
    open spec fn spec_kind(&self) -> nat {
        spec_renderer_hint_kind(*self)
    }

    fn kind(&self) -> (k: u8) {
        match self {
            EnumRendererHint::ForceApiVersion(_) => 0,
            EnumRendererHint::Optimization(_) => 1,
            EnumRendererHint::SplitLargeVertexBuffers(_) => 2,
            EnumRendererHint::SplitLargeIndexBuffers(_) => 3,
            EnumRendererHint::ApiCallChecking(_) => 4,
            EnumRendererHint::DepthTest(_) => 5,
            EnumRendererHint::CullFacing(_) => 6,
            EnumRendererHint::MSAA(_) => 7,
            EnumRendererHint::SRGB(_) => 8,
            EnumRendererHint::Blending(_) => 9,
        }
    }
}

impl EnumRendererHint {
    /// Whether both hints are of the same kind, whatever their payloads.
    pub fn is_equivalent(&self, other: &EnumRendererHint) -> (r: bool)
        ensures
            r == (spec_renderer_hint_kind(*self) == spec_renderer_hint_kind(*other)),
    {
        self.kind() == other.kind()
    }

    pub fn get_value(&self) -> (r: EnumRendererHintValue)
        ensures
            r == spec_renderer_hint_value(*self),
    {
        match self {
            EnumRendererHint::ForceApiVersion(v) => EnumRendererHintValue::ApiVersion(*v),
            EnumRendererHint::Optimization(m) => EnumRendererHintValue::Optimization(*m),
            EnumRendererHint::SplitLargeVertexBuffers(l) => EnumRendererHintValue::Limit(*l),
            EnumRendererHint::SplitLargeIndexBuffers(l) => EnumRendererHintValue::Limit(*l),
            EnumRendererHint::ApiCallChecking(m) => EnumRendererHintValue::CallChecking(*m),
            EnumRendererHint::DepthTest(b) => EnumRendererHintValue::Flag(*b),
            EnumRendererHint::CullFacing(c) => EnumRendererHintValue::Cull(*c),
            EnumRendererHint::MSAA(s) => EnumRendererHintValue::SampleCount(*s),
            EnumRendererHint::SRGB(b) => EnumRendererHintValue::Flag(*b),
            EnumRendererHint::Blending(b) => EnumRendererHintValue::Blending(*b),
        }
    }
}

/// The hints a renderer falls back on: asynchronous call checking, an sRGB
/// framebuffer, depth testing, alpha blending, batching of primitives that
/// share a shader (fewer draw calls) and back-face culling.
pub open spec fn spec_base_hints() -> Seq<EnumRendererHint> {
    seq![
        EnumRendererHint::ApiCallChecking(EnumRendererCallCheckingMode::Async),
        EnumRendererHint::SRGB(true),
        EnumRendererHint::DepthTest(true),
        EnumRendererHint::Blending(
            Some((EnumRendererBlendingFactor::SrcAlpha, EnumRendererBlendingFactor::OneMinusSrcAlpha)),
        ),
        EnumRendererHint::Optimization(EnumRendererOptimizationMode::MinimizeDrawCalls),
        EnumRendererHint::CullFacing(Some(EnumRendererCull::Back)),
    ]
}

/// The hints of a default renderer: the base hints, and no multisampling.
pub open spec fn spec_default_hints() -> Seq<EnumRendererHint> {
    spec_base_hints().push(EnumRendererHint::MSAA(None))
}

fn base_hints() -> (r: Vec<EnumRendererHint>)
    ensures
        r@ == spec_base_hints(),
{
    let mut v: Vec<EnumRendererHint> = Vec::new();
    v.push(EnumRendererHint::ApiCallChecking(EnumRendererCallCheckingMode::default()));
    v.push(EnumRendererHint::SRGB(true));
    v.push(EnumRendererHint::DepthTest(true));
    v.push(
        EnumRendererHint::Blending(
            Some((EnumRendererBlendingFactor::SrcAlpha, EnumRendererBlendingFactor::default())),
        ),
    );
    v.push(EnumRendererHint::Optimization(EnumRendererOptimizationMode::MinimizeDrawCalls));
    v.push(EnumRendererHint::CullFacing(Some(EnumRendererCull::default())));
    assert(v@ =~= spec_base_hints());
    v
}

/// Errors raised by the renderer.
#[derive(Debug, Clone, PartialEq, Eq, Structural, Hash)]
pub enum EnumRendererError {
    Init,
    NoApi,
    NoActiveRenderer,
    InvalidApi,
    UnsupportedApi,
    NotImplemented,
    ContextError,
    InvalidEntity,
    EntityNotFound,
    ShaderNotFound,
    UboNotFound,
    CError,
    OpenGLError(EnumOpenGLError),
}

/// Errors raised by the OpenGL back end.
#[derive(Debug, Copy, Clone, PartialEq, Eq, Structural, Hash)]
pub enum EnumOpenGLError {
    CStringError,
    ApiFunctionLoadingError,
    UnsupportedApiFunction,
    InvalidSubPrimitiveIndex,
    InvalidContext,
    InvalidOperation(u32),
    MSAAError,
    EntityUUIDNotFound,
    InvalidEntityType,
    InvalidBufferOperation(EnumGlBufferError),
}

/// Errors raised by OpenGL buffer objects.
#[derive(Debug, Copy, Clone, PartialEq, Eq, Structural, Hash)]
pub enum EnumGlBufferError {
    InvalidApi,
    InvalidBufferSize,
    InvalidCapacitySize,
    InvalidBufferOffset,
    InvalidReadBuffer,
    InvalidWriteBuffer,
    InvalidVertexAttribute,
    InvalidAttributeDivisor,
    InvalidUboTransformInstanceCount,
    InvalidVbo,
    InvalidVao,
    InvalidUbo,
    InvalidBlockBinding,
}

impl From<EnumOpenGLError> for EnumRendererError {
    fn from(value: EnumOpenGLError) -> (r: Self) {
        EnumRendererError::OpenGLError(value)
    }
}

impl vstd::std_specs::convert::FromSpecImpl<EnumOpenGLError> for EnumRendererError {
    open spec fn obeys_from_spec() -> bool {
        true
    }

    open spec fn from_spec(v: EnumOpenGLError) -> Self {
        EnumRendererError::OpenGLError(v)
    }
}

impl From<EnumGlBufferError> for EnumOpenGLError {
    fn from(value: EnumGlBufferError) -> (r: Self) {
        EnumOpenGLError::InvalidBufferOperation(value)
    }
}

impl vstd::std_specs::convert::FromSpecImpl<EnumGlBufferError> for EnumOpenGLError {
    open spec fn obeys_from_spec() -> bool {
        true
    }

    open spec fn from_spec(v: EnumGlBufferError) -> Self {
        EnumOpenGLError::InvalidBufferOperation(v)
    }
}

/// Whether every value below `n` occurs in `ids`.
pub open spec fn ids_cover(ids: Seq<u64>, n: int) -> bool {
    forall|x: int| 0 <= x < n ==> ids.contains(#[trigger] (x as u64))
}

/// The identifier the renderer hands to the next entity it takes: the
/// smallest value not in use.
pub open spec fn is_smallest_free_id(ids: Seq<u64>, id: u64) -> bool {
    &&& !ids.contains(id)
    &&& ids_cover(ids, id as int)
}

/// A list of `n` identifiers cannot hold every value below a bound larger than `n`.
proof fn lemma_cover_bound(ids: Seq<u64>, n: int)
    requires
        0 <= n <= u64::MAX + 1,
        ids_cover(ids, n),
    ensures
        n <= ids.len(),
{
    broadcast use seq_to_set_is_finite;

    let t = ids.map_values(|x: u64| x as int);
    t.lemma_cardinality_of_set();
    lemma_int_range(0, n);
    assert forall|x: int| set_int_range(0, n).contains(x) implies t.to_set().contains(x) by {
        assert(ids.contains(x as u64));
        let i = choose|i: int| 0 <= i < ids.len() && ids[i] == x as u64;
        assert(t[i] == x);
    }
    lemma_len_subset(set_int_range(0, n), t.to_set());
}

/// Counts of what the renderer did in a frame.
#[derive(Debug, Copy, Clone, PartialEq, Eq, Structural, Hash)]
pub struct Stats {
    pub m_entities_sent_count: u32,
    pub m_shader_bound_count: u32,
    pub m_vao_bound_count: u32,
    pub m_ibo_bound_count: u32,
    pub m_texture_bound_count: u32,
}

impl Stats {
    /// Nothing counted yet.
    pub fn new() -> (r: Stats)
        ensures
            r == Stats::new_spec(),
    {
        Stats {
            m_entities_sent_count: 0,
            m_shader_bound_count: 0,
            m_vao_bound_count: 0,
            m_ibo_bound_count: 0,
            m_texture_bound_count: 0,
        }
    }

    /// Every count starts again from zero.
    pub fn reset(&mut self)
        ensures
            *final(self) == Stats::new_spec(),
    {
        self.m_ibo_bound_count = 0;
        self.m_shader_bound_count = 0;
        self.m_entities_sent_count = 0;
        self.m_vao_bound_count = 0;
        self.m_texture_bound_count = 0;
    }

    /// The counts of a new frame: all zero.
    pub open spec fn new_spec() -> Stats {
        Stats {
            m_entities_sent_count: 0,
            m_shader_bound_count: 0,
            m_vao_bound_count: 0,
            m_ibo_bound_count: 0,
            m_texture_bound_count: 0,
        }
    }
}

/// The renderer: its lifecycle, the API it drives, its options and the
/// identifiers of the entities it holds.
pub struct Renderer {
    pub m_state: EnumRendererState,
    pub m_type: EnumRendererApi,
    pub m_hints: Vec<EnumRendererHint>,
    pub m_ids: Vec<u64>,
}

impl Renderer {
    /// A created renderer for `api_chosen`, with no options and no entities.
    pub fn new(api_chosen: EnumRendererApi) -> (r: Renderer)
        ensures
            r.m_state == EnumRendererState::Created,
            r.m_type == api_chosen,
            r.m_hints@ == Seq::<EnumRendererHint>::empty(),
            r.m_ids@ == Seq::<u64>::empty(),
    {
        Renderer {
            m_state: EnumRendererState::Created,
            m_type: api_chosen,
            m_hints: Vec::new(),
            m_ids: Vec::new(),
        }
    }

    /// A created OpenGL renderer with the default options.
    pub fn default() -> (r: Renderer)
        ensures
            r.m_state == EnumRendererState::Created,
            r.m_type == EnumRendererApi::OpenGL,
            r.m_hints@ == spec_default_hints(),
            r.m_ids@ == Seq::<u64>::empty(),
    {
        let mut hints = base_hints();
        hints.push(EnumRendererHint::MSAA(None));
        Renderer {
            m_state: EnumRendererState::Created,
            m_type: EnumRendererApi::default(),
            m_hints: hints,
            m_ids: Vec::new(),
        }
    }

    /// Sets `hint`, replacing the hint of the same kind.
    pub fn set_hint(&mut self, hint: EnumRendererHint)
        ensures
            final(self).m_hints@ == spec_with_hint(old(self).m_hints@, hint),
            final(self).m_state == old(self).m_state,
            final(self).m_type == old(self).m_type,
            final(self).m_ids@ == old(self).m_ids@,
    {
        set_hint_in(&mut self.m_hints, hint);
    }

    /// Puts back the base options.
    pub fn reset_hints(&mut self)
        ensures
            final(self).m_hints@ == spec_base_hints(),
            final(self).m_state == old(self).m_state,
            final(self).m_type == old(self).m_type,
            final(self).m_ids@ == old(self).m_ids@,
    {
        self.m_hints = base_hints();
    }

    /// Readies the options before the context is applied: a renderer without
    /// options takes the base ones. Only OpenGL is built in; a Vulkan renderer
    /// is refused with `InvalidApi`.
    pub fn apply(&mut self) -> (r: Result<(), EnumRendererError>)
        ensures
            final(self).m_hints@ == (if old(self).m_hints@.len() == 0 {
                spec_base_hints()
            } else {
                old(self).m_hints@
            }),
            final(self).m_state == old(self).m_state,
            final(self).m_type == old(self).m_type,
            final(self).m_ids@ == old(self).m_ids@,
            r is Err <==> old(self).m_type == EnumRendererApi::Vulkan,
            r is Err ==> r == Err::<(), EnumRendererError>(EnumRendererError::InvalidApi),
    {
        if self.m_hints.len() == 0 {
            self.reset_hints();
        }
        match self.m_type {
            EnumRendererApi::Vulkan => Err(EnumRendererError::InvalidApi),
            EnumRendererApi::OpenGL => Ok(()),
        }
    }

    /// Whether freeing has anything to release: a renderer that was never
    /// created, or is already deleted, holds nothing.
    pub fn needs_freeing(&self) -> (r: bool)
        ensures
            r == !(self.m_state == EnumRendererState::NotCreated || self.m_state
                == EnumRendererState::Deleted),
    {
        !(self.m_state == EnumRendererState::NotCreated || self.m_state == EnumRendererState::Deleted)
    }

    /// Records that the context released its resources.
    pub fn mark_deleted(&mut self)
        ensures
            final(self).m_state == EnumRendererState::Deleted,
            final(self).m_type == old(self).m_type,
            final(self).m_hints@ == old(self).m_hints@,
            final(self).m_ids@ == old(self).m_ids@,
    {
        self.m_state = EnumRendererState::Deleted;
    }

    /// Whether `event` closes the renderer (the window closed): the context is
    /// then freed and the event handled; any other event goes to the context.
    pub fn closes_on(event: &EnumEvent) -> (r: bool)
        ensures
            r == (*event is WindowCloseEvent),
    {
        match event {
            EnumEvent::WindowCloseEvent(_) => true,
            _ => false,
        }
    }

    /// Frees the renderer: one never created, or already deleted, holds
    /// nothing and is left as it is; otherwise its context `ctx` is freed
    /// (see `GlContext::free`, whose error is returned with both left as
    /// they were) and the renderer is deleted.
    pub fn free(&mut self, ctx: &mut GlContext) -> (r: Result<(), EnumRendererError>)
        ensures
            final(self).m_type == old(self).m_type,
            final(self).m_hints@ == old(self).m_hints@,
            final(self).m_ids@ == old(self).m_ids@,
            (old(self).m_state == EnumRendererState::NotCreated || old(self).m_state == EnumRendererState::Deleted) ==> r is Ok && final(self).m_state == old(self).m_state && *final(ctx)
                == *old(ctx),
            !(old(self).m_state == EnumRendererState::NotCreated || old(self).m_state == EnumRendererState::Deleted) && (old(ctx).m_state == EnumRendererState::NotCreated || old(ctx).m_state
                == EnumRendererState::Deleted) ==> r == Err::<(), EnumRendererError>(
                EnumRendererError::OpenGLError(EnumOpenGLError::InvalidContext),
            ) && final(self).m_state == old(self).m_state && *final(ctx) == *old(ctx),
            !(old(self).m_state == EnumRendererState::NotCreated || old(self).m_state == EnumRendererState::Deleted) && !(old(ctx).m_state == EnumRendererState::NotCreated || old(ctx).m_state
                == EnumRendererState::Deleted) ==> r is Ok && final(self).m_state == EnumRendererState::Deleted
                && spec_context_freed(*old(ctx), *final(ctx)),
    {
        if !self.needs_freeing() {
            return Ok(());
        }
        ctx.free()?;
        self.m_state = EnumRendererState::Deleted;
        Ok(())
    }

    /// The renderer's answer to `event`: a closed window frees the context and
    /// deletes the renderer (see `free`'s error), the event being handled;
    /// any other event goes to the context (see `GlContext::on_event`), whose
    /// call, if any, is returned.
    pub fn on_event(&mut self, ctx: &mut GlContext, event: &EnumEvent) -> (r: Result<
        (bool, Option<GlCall>),
        EnumRendererError,
    >)
        ensures
            final(self).m_type == old(self).m_type,
            final(self).m_hints@ == old(self).m_hints@,
            final(self).m_ids@ == old(self).m_ids@,
            !(*event is WindowCloseEvent) ==> r == Ok::<(bool, Option<GlCall>), EnumRendererError>(
                match *event {
                    EnumEvent::FramebufferEvent(w, h) => (true, Some(GlCall::Viewport(0, 0, w as i32, h as i32))),
                    _ => (false, None),
                },
            ) && final(self).m_state == old(self).m_state && *final(ctx) == *old(ctx),
            *event is WindowCloseEvent && (old(ctx).m_state == EnumRendererState::NotCreated || old(ctx).m_state
                == EnumRendererState::Deleted) ==> r == Err::<(bool, Option<GlCall>), EnumRendererError>(
                EnumRendererError::OpenGLError(EnumOpenGLError::InvalidContext),
            ) && final(self).m_state == old(self).m_state && *final(ctx) == *old(ctx),
            *event is WindowCloseEvent && !(old(ctx).m_state == EnumRendererState::NotCreated || old(ctx).m_state
                == EnumRendererState::Deleted) ==> r == Ok::<(bool, Option<GlCall>), EnumRendererError>((true, None))
                && final(self).m_state == EnumRendererState::Deleted && spec_context_freed(*old(ctx), *final(ctx)),
    {
        match event {
            EnumEvent::WindowCloseEvent(_) => {
                ctx.free()?;
                self.m_state = EnumRendererState::Deleted;
                Ok((true, None))
            },
            _ => Ok(ctx.on_event(event)),
        }
    }

    /// Queues `entity` for drawing with `shader` in the OpenGL context `ctx`:
    /// the entity first takes the smallest identifier not in use (see
    /// `register_id`), which stays in use whatever follows; the context then
    /// queues it (see `GlContext::enqueue`), and its error is the renderer's
    /// OpenGL error.
    pub fn enqueue(
        &mut self,
        ctx: &mut GlContext,
        entity: &mut REntity,
        shader: &Shader,
        ids: &GlEnqueueIds,
    ) -> (r: Result<GlEnqueuePlan, EnumRendererError>)
        requires
            old(entity).m_type is Mesh,
            ids.m_grown@.len() == old(entity).m_sub_meshes@.len(),
            spec_enqueue_fits(*old(ctx), *old(entity), shader.m_program_id),
        ensures
            is_smallest_free_id(old(self).m_ids@, final(entity).m_renderer_id),
            final(self).m_ids@ == old(self).m_ids@.push(final(entity).m_renderer_id),
            final(self).m_state == old(self).m_state,
            final(self).m_type == old(self).m_type,
            final(self).m_hints@ == old(self).m_hints@,
            *final(entity) == (REntity { m_renderer_id: final(entity).m_renderer_id, ..*old(entity) }),
            final(ctx).m_extensions@ == old(ctx).m_extensions@,
            final(ctx).m_state == old(ctx).m_state,
            final(ctx).m_settings == old(ctx).m_settings,
            match r {
                Ok(p) => spec_enqueued(*old(ctx), *final(ctx), *final(entity), *shader, *ids, Ok(p)),
                Err(EnumRendererError::OpenGLError(e)) => spec_enqueued(
                    *old(ctx),
                    *final(ctx),
                    *final(entity),
                    *shader,
                    *ids,
                    Err(e),
                ),
                Err(_) => false,
            },
    {
        let id = self.register_id();
        entity.m_renderer_id = id;
        match ctx.enqueue(entity, shader, ids) {
            Ok(p) => Ok(p),
            Err(e) => Err(EnumRendererError::OpenGLError(e)),
        }
    }

    pub fn get_type(&self) -> (r: EnumRendererApi)
        ensures
            r == self.m_type,
    {
        self.m_type
    }

    /// Hands out an identifier to a new entity: the smallest value not in use,
    /// which is then recorded as in use.
    pub fn register_id(&mut self) -> (id: u64)
        ensures
            is_smallest_free_id(old(self).m_ids@, id),
            final(self).m_ids@ == old(self).m_ids@.push(id),
            final(self).m_state == old(self).m_state,
            final(self).m_type == old(self).m_type,
            final(self).m_hints@ == old(self).m_hints@,
    {
        let mut new_id: u64 = 0;
        loop
            invariant
                ids_cover(self.m_ids@, new_id as int),
                self.m_ids@ == old(self).m_ids@,
            ensures
                ids_cover(self.m_ids@, new_id as int),
                !self.m_ids@.contains(new_id),
                self.m_ids@ == old(self).m_ids@,
            decreases self.m_ids@.len() - new_id,
        {
            proof {
                lemma_cover_bound(self.m_ids@, new_id as int);
            }
            let mut found = false;
            let mut i: usize = 0;
            while i < self.m_ids.len()
                invariant
                    0 <= i <= self.m_ids.len(),
                    found <==> exists|j: int| 0 <= j < i && self.m_ids@[j] == new_id,
                decreases self.m_ids.len() - i,
            {
                if self.m_ids[i] == new_id {
                    found = true;
                }
                i = i + 1;
            }
            if !found {
                assert(!self.m_ids@.contains(new_id));
                break;
            }
            assert(self.m_ids@.contains(new_id));
            proof {
                assert forall|x: int| 0 <= x < new_id + 1 implies self.m_ids@.contains(
                    #[trigger] (x as u64),
                ) by {
                    if x == new_id as int {
                        assert(x as u64 == new_id);
                    }
                }
                lemma_cover_bound(self.m_ids@, new_id + 1);
            }
            new_id = new_id + 1;
        }
        self.m_ids.push(new_id);
        new_id
    }
}

/// Identifiers handed out one after another are all distinct and in use.
pub proof fn lemma_registered_ids_distinct(ids: Seq<u64>, a: u64, b: u64)
    requires
        is_smallest_free_id(ids, a),
        is_smallest_free_id(ids.push(a), b),
    ensures
        a != b,
        ids.push(a).push(b).contains(a),
        ids.push(a).push(b).contains(b),
        a < b,
{
    assert(ids.push(a)[ids.len() as int] == a);
    assert(ids.push(a).contains(a));
    if b < a {
        assert(ids.contains(b as u64));
        let j = choose|j: int| 0 <= j < ids.len() && ids[j] == b;
        assert(ids.push(a)[j] == b);
    }
    assert(ids.push(a).push(b)[ids.len() as int] == a);
    assert(ids.push(a).push(b)[ids.len() + 1int] == b);
}

} // verus!
