//! Shaders: their stages and sources, what makes a source valid, the GLSL
//! version it declares, the language it is written in, and where compiled
//! stages are cached.

use vstd::prelude::*;

use crate::graphics::renderer::EnumRendererApi;
use crate::strings::{occurs_at, path_extension, spec_contains, spec_path_extension, str_contains, str_eq, str_find};

verus! {

#[derive(Debug, Copy, Clone, PartialEq, Eq, Structural, Hash)]
pub enum EnumShaderState {
    NotCreated,
    Created,
    Sourced,
    Compiled,
    Sent,
    Freed,
    Deleted,
}

#[derive(Debug, Copy, Clone, PartialEq, Eq, Structural, Hash)]
pub enum EnumShaderLanguageType {
    Glsl,
    GlslSpirV,
    SpirV,
    Binary,
}

/// Errors of the OpenGL shader back end.
#[derive(Debug, Copy, Clone, PartialEq, Eq, Structural, Hash)]
pub enum EnumError {
    ProgramCreationError,
    ShaderFileError,
    ShaderCachingError,
    ShaderSyntaxError,
    ShaderTypeError,
    ShaderSourcingError,
    ShaderCompilationError,
    ShaderLinkageError,
    ShaderModuleError,
    ShaderBinaryCompilationError,
    NoBinaryFormatsError,
    UnsupportedUniformType,
    UniformNotFound,
    OpenGLApiError,
}

#[derive(Debug, Clone, PartialEq, Eq)]
pub enum EnumShaderError {
    NoShaderStagesProvided,
    NoActiveRendererError,
    InvalidApi,
    UnsupportedApiFunction,
    FileNotFound,
    PathError,
    UnsupportedFileType,
    UnsupportedFileVersion,
    ShaderNotCached,
    ShaderModified,
    ShaderBinaryError,
    InvalidShaderSource,
    InvalidFileOperation,
    /// A read or write failed; the description of the failure.
    IoError(String),
    OpenGLShaderError(EnumError),
}

#[derive(Debug, Copy, Clone, PartialEq, Eq, Structural, Hash)]
pub enum EnumShaderStage {
    Vertex,
    Fragment,
    Geometry,
    Compute,
}

/// The API value of a stage.
pub open spec fn spec_stage_gl(s: EnumShaderStage) -> u32 {
    match s {
        EnumShaderStage::Vertex => 0x8B31,
        EnumShaderStage::Fragment => 0x8B30,
        EnumShaderStage::Geometry => 0x8DD9,
        EnumShaderStage::Compute => 0x91B9,
    }
}

pub open spec fn spec_stage_name(s: EnumShaderStage) -> Seq<char> {
    match s {
        EnumShaderStage::Vertex => "Vertex"@,
        EnumShaderStage::Fragment => "Fragment"@,
        EnumShaderStage::Geometry => "Geometry"@,
        EnumShaderStage::Compute => "Compute"@,
    }
}

impl EnumShaderStage {
    pub fn to_gl(&self) -> (r: u32)
        ensures
            r == spec_stage_gl(*self),
    {
        match self {
            EnumShaderStage::Vertex => 0x8B31,
            EnumShaderStage::Fragment => 0x8B30,
            EnumShaderStage::Geometry => 0x8DD9,
            EnumShaderStage::Compute => 0x91B9,
        }
    }

    pub fn to_string(&self) -> (r: String)
        ensures
            r@ == spec_stage_name(*self),
    {
        let s = match self {
            EnumShaderStage::Vertex => "Vertex",
            EnumShaderStage::Fragment => "Fragment",
            EnumShaderStage::Geometry => "Geometry",
            EnumShaderStage::Compute => "Compute",
        };
        s.to_owned()
    }
}

/// Where a stage's source comes from: a file, or the text itself.
#[derive(Debug, Clone, PartialEq, Eq, Hash)]
pub enum EnumShaderSource {
    FromFile(String),
    FromStr(String),
}

impl EnumShaderSource {
    /// The path or the text.
    pub fn into_string(self) -> (r: String)
        ensures
            r@ == match self {
                EnumShaderSource::FromFile(s) => s@,
                EnumShaderSource::FromStr(s) => s@,
            },
    {
        match self {
            EnumShaderSource::FromFile(s) => s,
            EnumShaderSource::FromStr(s) => s,
        }
    }

    /// "File : " and the path, or "Literal : " and the text.
    pub fn to_string(&self) -> (r: String)
        ensures
            r@ == match *self {
                EnumShaderSource::FromFile(s) => "File : "@ + s@,
                EnumShaderSource::FromStr(s) => "Literal : "@ + s@,
            },
    {
        match self {
            EnumShaderSource::FromFile(s) => {
                let mut r = "File : ".to_owned();
                r.append(s.as_str());
                proof {
                    reveal_strlit("File : ");
                }
                r
            },
            EnumShaderSource::FromStr(s) => {
                let mut r = "Literal : ".to_owned();
                r.append(s.as_str());
                proof {
                    reveal_strlit("Literal : ");
                }
                r
            },
        }
    }
}

/// A stage of a shader: its kind, its source, and whether a compiled copy
/// is used from the cache.
#[derive(Debug, Clone)]
pub struct ShaderStage {
    pub m_stage: EnumShaderStage,
    pub m_source: EnumShaderSource,
    pub m_is_cached: bool,
}

/// The file a stage of kind `s` is read from by default.
pub open spec fn spec_default_stage_path(s: EnumShaderStage) -> Seq<char> {
    match s {
        EnumShaderStage::Vertex => "res/shaders/glsl_420.vert"@,
        EnumShaderStage::Fragment => "res/shaders/glsl_420.frag"@,
        EnumShaderStage::Geometry => "res/shaders/glsl_420_solid_wireframe.gs"@,
        EnumShaderStage::Compute => "res/shaders/glsl_420.cs"@,
    }
}

impl ShaderStage {
    /// The default stage of kind `stage`: read from its default file, not cached.
    pub fn default(stage: EnumShaderStage) -> (r: ShaderStage)
        ensures
            r.m_stage == stage,
            r.m_source matches EnumShaderSource::FromFile(p) && p@ == spec_default_stage_path(stage),
            !r.m_is_cached,
    {
        let path = match stage {
            EnumShaderStage::Vertex => "res/shaders/glsl_420.vert",
            EnumShaderStage::Fragment => "res/shaders/glsl_420.frag",
            EnumShaderStage::Geometry => "res/shaders/glsl_420_solid_wireframe.gs",
            EnumShaderStage::Compute => "res/shaders/glsl_420.cs",
        };
        ShaderStage { m_stage: stage, m_source: EnumShaderSource::FromFile(path.to_owned()), m_is_cached: false }
    }

    pub fn new(shader_type: EnumShaderStage, shader_source: EnumShaderSource) -> (r: ShaderStage)
        ensures
            r.m_stage == shader_type,
            r.m_source == shader_source,
            !r.m_is_cached,
    {
        ShaderStage { m_stage: shader_type, m_source: shader_source, m_is_cached: false }
    }

    pub fn cache_status(&self) -> (r: bool)
        ensures
            r == self.m_is_cached,
    {
        self.m_is_cached
    }

    /// Whether both stages are of the same kind from the same source.
    pub fn eq(&self, other: &ShaderStage) -> (r: bool)
        ensures
            r == (self.m_stage == other.m_stage && match (self.m_source, other.m_source) {
                (EnumShaderSource::FromFile(a), EnumShaderSource::FromFile(b)) => a@ == b@,
                (EnumShaderSource::FromStr(a), EnumShaderSource::FromStr(b)) => a@ == b@,
                _ => false,
            }),
    {
        if self.m_stage != other.m_stage {
            return false;
        }
        match (&self.m_source, &other.m_source) {
            (EnumShaderSource::FromFile(a), EnumShaderSource::FromFile(b)) => str_eq(a.as_str(), b.as_str()),
            (EnumShaderSource::FromStr(a), EnumShaderSource::FromStr(b)) => str_eq(a.as_str(), b.as_str()),
            _ => false,
        }
    }
}

/// Whether shader text `source` can be a stage: it declares a version and
/// has a main function.
pub open spec fn spec_valid_source(source: Seq<char>) -> bool {
    spec_contains(source, "#version"@) && spec_contains(source, "void main()"@)
}

/// Checks shader text: without a version or a main function, `InvalidShaderSource`.
pub fn check_validity(source: &str) -> (r: Result<(), EnumShaderError>)
    ensures
        r is Ok <==> spec_valid_source(source@),
        r is Err ==> r == Err::<(), EnumShaderError>(EnumShaderError::InvalidShaderSource),
{
    if !str_contains(source, "#version") || !str_contains(source, "void main()") {
        return Err(EnumShaderError::InvalidShaderSource);
    }
    Ok(())
}

/// The value of an ASCII digit.
pub open spec fn spec_digit(c: char) -> Option<nat> {
    if '0' <= c && c <= '9' {
        Some((c as nat - '0' as nat) as nat)
    } else {
        None
    }
}

/// The number a three-character field reads as (as an unsigned parse takes
/// it: three digits, or a plus sign and two digits).
pub open spec fn spec_parse3(s: Seq<char>) -> Option<u16> {
    if s.len() != 3 {
        None
    } else if s[0] == '+' {
        match (spec_digit(s[1]), spec_digit(s[2])) {
            (Some(b), Some(c)) => Some((b * 10 + c) as u16),
            _ => None,
        }
    } else {
        match (spec_digit(s[0]), spec_digit(s[1]), spec_digit(s[2])) {
            (Some(a), Some(b), Some(c)) => Some((a * 100 + b * 10 + c) as u16),
            _ => None,
        }
    }
}

/// The version a shader text declares: the three characters after the one
/// that follows its first `#version`, read as a number.
pub open spec fn spec_declared_version(source: Seq<char>) -> Option<u16> {
    if spec_contains(source, "#version"@) {
        let at = choose|at: int|
            occurs_at(source, "#version"@, at) && forall|j: int| 0 <= j < at ==> !occurs_at(source, "#version"@, j);
        let start = at + 9;
        if start + 3 <= source.len() {
            spec_parse3(source.subrange(start, start + 3))
        } else {
            None
        }
    } else {
        None
    }
}

fn digit(c: char) -> (r: Option<u16>)
    ensures
        r matches Some(v) ==> spec_digit(c) == Some(v as nat),
        r is None ==> spec_digit(c) is None,
{
    if '0' <= c && c <= '9' {
        Some((c as u32 - '0' as u32) as u16)
    } else {
        None
    }
}

/// The version a shader text declares (see `spec_declared_version`); none
/// where it declares none or the field is not a number.
pub fn parse_version(source: &str) -> (r: Option<u16>)
    ensures
        r == spec_declared_version(source@),
{
    proof {
        reveal_strlit("#version");
    }
    match str_find(source, "#version") {
        None => {
            assert(!spec_contains(source@, "#version"@));
            None
        },
        Some(at) => {
            assert(spec_contains(source@, "#version"@));
            let ghost chosen = choose|a: int|
                occurs_at(source@, "#version"@, a) && forall|j: int|
                    0 <= j < a ==> !occurs_at(source@, "#version"@, j);
            proof {
                if chosen < at {
                    assert(!occurs_at(source@, "#version"@, chosen));
                }
                if at < chosen {
                    assert(!occurs_at(source@, "#version"@, at as int));
                }
            }
            assert(chosen == at);
            let n = source.unicode_len();
            if n - at < 12 {
                return None;
            }
            let start = at + 9;
            let c0 = source.get_char(start);
            let c1 = source.get_char(start + 1);
            let c2 = source.get_char(start + 2);
            let ghost field = source@.subrange(start as int, start + 3);
            assert(field[0] == c0 && field[1] == c1 && field[2] == c2);
            if c0 == '+' {
                match (digit(c1), digit(c2)) {
                    (Some(b), Some(c)) => Some(b * 10 + c),
                    _ => None,
                }
            } else {
                match (digit(c0), digit(c1), digit(c2)) {
                    (Some(a), Some(b), Some(c)) => Some(a * 100 + b * 10 + c),
                    _ => None,
                }
            }
        },
    }
}

/// The language of a stage from its file's extension (binary, SPIR-V) or
/// else its text: text naming SPIR-V or Vulkan is GLSL for SPIR-V.
pub open spec fn spec_language(extension: Option<Seq<char>>, source: Seq<char>) -> EnumShaderLanguageType {
    if extension == Some("bin"@) {
        EnumShaderLanguageType::Binary
    } else if extension == Some("spv"@) {
        EnumShaderLanguageType::SpirV
    } else if spec_contains(source, "GL_SPIRV"@) || spec_contains(source, "Vulkan"@) {
        EnumShaderLanguageType::GlslSpirV
    } else {
        EnumShaderLanguageType::Glsl
    }
}

/// The language of a stage (see `spec_language`): `extension` is its
/// file's, if read from a file; `source` its text (not read for binary and
/// SPIR-V files).
pub fn parse_language(extension: Option<&str>, source: &str) -> (r: EnumShaderLanguageType)
    ensures
        r == spec_language(
            match extension {
                Some(e) => Some(e@),
                None => None,
            },
            source@,
        ),
{
    proof {
        reveal_strlit("bin");
        reveal_strlit("spv");
    }
    if let Some(e) = extension {
        if str_eq(e, "bin") {
            return EnumShaderLanguageType::Binary;
        }
        if str_eq(e, "spv") {
            return EnumShaderLanguageType::SpirV;
        }
    }
    if str_contains(source, "GL_SPIRV") || str_contains(source, "Vulkan") {
        return EnumShaderLanguageType::GlslSpirV;
    }
    EnumShaderLanguageType::Glsl
}

/// Where the compiled copy of a stage read from file `file_name` (of
/// extension `extension`) is cached: under `cache/`, with `.spv` appended
/// unless it is already SPIR-V.
pub open spec fn spec_cache_path(file_name: Seq<char>, extension: Seq<char>) -> Seq<char> {
    if extension == "spv"@ {
        "cache/"@ + file_name
    } else {
        "cache/"@ + file_name + ".spv"@
    }
}

pub fn cache_path(file_name: &str, extension: &str) -> (r: String)
    ensures
        r@ == spec_cache_path(file_name@, extension@),
{
    proof {
        reveal_strlit("cache/");
        reveal_strlit(".spv");
        reveal_strlit("spv");
    }
    let mut r = "cache/".to_owned();
    r.append(file_name);
    if !str_eq(extension, "spv") {
        r.append(".spv");
    }
    r
}

/// Whether a cached copy may be used: an OpenGL context must offer SPIR-V
/// (`InvalidApi` otherwise), and the source must not be newer than the
/// copy (`ShaderModified` otherwise).
pub fn check_cache(api: EnumRendererApi, spirv_supported: bool, source_newer: bool) -> (r: Result<(), EnumShaderError>)
    ensures
        api == EnumRendererApi::OpenGL && !spirv_supported ==> r == Err::<(), EnumShaderError>(
            EnumShaderError::InvalidApi,
        ),
        !(api == EnumRendererApi::OpenGL && !spirv_supported) && source_newer ==> r == Err::<
            (),
            EnumShaderError,
        >(EnumShaderError::ShaderModified),
        !(api == EnumRendererApi::OpenGL && !spirv_supported) && !source_newer ==> r is Ok,
{
    if api == EnumRendererApi::OpenGL && !spirv_supported {
        return Err(EnumShaderError::InvalidApi);
    }
    if source_newer {
        return Err(EnumShaderError::ShaderModified);
    }
    Ok(())
}

/// What the caller found about a stage: its text (or the failure reading
/// it), the name, stem and extension of its file (for file stages), whether
/// its cached copy may be used, and what reading the text with its version
/// lowered to the supported one, taken as a file path, gave (only looked at
/// where the text declares a version the context does not support).
pub struct StageReport {
    pub m_text: Result<String, EnumShaderError>,
    pub m_file_name: String,
    pub m_file_stem: String,
    pub m_extension: String,
    pub m_cache_usable: bool,
    pub m_downgrade_read: Result<(), EnumShaderError>,
}

/// What is wrong with a stage's report, if anything: the failure reading
/// its text, a text that is not valid (`InvalidShaderSource`), or
/// (`Some(None)`) a text that declares no readable version; and for a text
/// declaring a version above `max_version`, the failure of the lowered read.
#[verifier::opaque]
pub open spec fn spec_report_failure(r: StageReport, max_version: u16) -> Option<Option<EnumShaderError>> {
    match r.m_text {
        Err(e) => Some(Some(e)),
        Ok(t) => if !spec_valid_source(t@) {
            Some(Some(EnumShaderError::InvalidShaderSource))
        } else if spec_declared_version(t@) is None {
            Some(None)
        } else if max_version < spec_declared_version(t@)->0 && r.m_downgrade_read is Err {
            Some(Some(r.m_downgrade_read->Err_0))
        } else {
            None
        },
    }
}

/// The index of the first report from `i` on that has a failure; the
/// length where none has.
pub open spec fn spec_first_failure(reports: Seq<StageReport>, i: int, max_version: u16) -> int
    decreases reports.len() - i,
{
    if i < 0 || i >= reports.len() {
        reports.len() as int
    } else if spec_report_failure(reports[i], max_version) is Some {
        i
    } else {
        spec_first_failure(reports, i + 1, max_version)
    }
}

/// The language of a shader whose first stage is prepared as `source` (see
/// `spec_prepared_source`): from its text where it is a literal; from its
/// path's extension and `file_text`, the file's text, where it is a file.
pub open spec fn spec_first_language(source: (bool, Seq<char>), file_text: Seq<char>) -> EnumShaderLanguageType {
    if source.0 {
        spec_language(spec_path_extension(source.1), file_text)
    } else {
        spec_language(None, source.1)
    }
}

/// Whether preparing `stages` stops at a text whose version cannot be read:
/// the first failing report declares no readable version.
pub open spec fn spec_version_unreadable(stages: Seq<ShaderStage>, reports: Seq<StageReport>, max_version: u16) -> bool {
    &&& stages.len() > 0
    &&& spec_first_failure(reports, 0, max_version) < reports.len()
    &&& spec_report_failure(reports[spec_first_failure(reports, 0, max_version)], max_version) == Some(
        None::<EnumShaderError>,
    )
}

proof fn lemma_first_failure(reports: Seq<StageReport>, i: int, max_version: u16)
    requires
        0 <= i <= reports.len(),
    ensures
        i <= spec_first_failure(reports, i, max_version) <= reports.len(),
        spec_first_failure(reports, i, max_version) < reports.len() ==> spec_report_failure(
            reports[spec_first_failure(reports, i, max_version)],
            max_version,
        ) is Some,
        forall|j: int| i <= j < spec_first_failure(reports, i, max_version) ==> spec_report_failure(#[trigger] reports[j], max_version) is None,
    decreases reports.len() - i,
{
    if i < reports.len() && spec_report_failure(reports[i], max_version) is None {
        lemma_first_failure(reports, i + 1, max_version);
    }
}

/// A stage's source as whether it is a file, and the path or the text.
pub open spec fn spec_source_view(s: EnumShaderSource) -> (bool, Seq<char>) {
    match s {
        EnumShaderSource::FromFile(p) => (true, p@),
        EnumShaderSource::FromStr(t) => (false, t@),
    }
}

/// Every stage is read from a file whose cached copy may be used.
pub open spec fn spec_all_cached(stages: Seq<ShaderStage>, reports: Seq<StageReport>) -> bool {
    forall|k: int|
        0 <= k < stages.len() ==> (#[trigger] stages[k]).m_source is FromFile && reports[k].m_cache_usable
}

/// The source of a prepared stage: texts stay; when every stage is cached,
/// files read from their cached copy; otherwise a file whose copy could be
/// used, or a SPIR-V file, goes back to its source under `res/shaders/`
/// (named by its file name, or its stem for SPIR-V), and others stay.
pub open spec fn spec_prepared_source(s: ShaderStage, r: StageReport, all_cached: bool) -> (bool, Seq<char>) {
    let (is_file, text) = spec_source_view(s.m_source);
    let spv = r.m_extension@ == "spv"@;
    if !is_file {
        (false, text)
    } else if all_cached {
        (true, spec_cache_path(r.m_file_name@, r.m_extension@))
    } else if r.m_cache_usable {
        (true, "res/shaders/"@ + (if spv {
            r.m_file_stem@
        } else {
            r.m_file_name@
        }))
    } else if spv {
        (true, "res/shaders/"@ + r.m_file_stem@)
    } else {
        (true, text)
    }
}

/// Whether `out` is stage `s` prepared with report `r`.
pub open spec fn spec_prepared(out: ShaderStage, s: ShaderStage, r: StageReport, all_cached: bool) -> bool {
    &&& out.m_stage == s.m_stage
    &&& out.m_is_cached == all_cached
    &&& spec_source_view(out.m_source) == spec_prepared_source(s, r, all_cached)
}

fn copy_error(e: &EnumShaderError) -> (r: EnumShaderError)
    ensures
        r == *e,
{
    match e {
        EnumShaderError::NoShaderStagesProvided => EnumShaderError::NoShaderStagesProvided,
        EnumShaderError::NoActiveRendererError => EnumShaderError::NoActiveRendererError,
        EnumShaderError::InvalidApi => EnumShaderError::InvalidApi,
        EnumShaderError::UnsupportedApiFunction => EnumShaderError::UnsupportedApiFunction,
        EnumShaderError::FileNotFound => EnumShaderError::FileNotFound,
        EnumShaderError::PathError => EnumShaderError::PathError,
        EnumShaderError::UnsupportedFileType => EnumShaderError::UnsupportedFileType,
        EnumShaderError::UnsupportedFileVersion => EnumShaderError::UnsupportedFileVersion,
        EnumShaderError::ShaderNotCached => EnumShaderError::ShaderNotCached,
        EnumShaderError::ShaderModified => EnumShaderError::ShaderModified,
        EnumShaderError::ShaderBinaryError => EnumShaderError::ShaderBinaryError,
        EnumShaderError::InvalidShaderSource => EnumShaderError::InvalidShaderSource,
        EnumShaderError::InvalidFileOperation => EnumShaderError::InvalidFileOperation,
        EnumShaderError::IoError(s) => EnumShaderError::IoError(s.clone()),
        EnumShaderError::OpenGLShaderError(g) => EnumShaderError::OpenGLShaderError(*g),
    }
}

/// The failure of report `r` (see `spec_report_failure`).
fn report_failure(r: &StageReport, max_version: u16) -> (f: Option<Option<EnumShaderError>>)
    ensures
        f == spec_report_failure(*r, max_version),
{
    reveal(spec_report_failure);
    match &r.m_text {
        Err(e) => Some(Some(copy_error(e))),
        Ok(text) => {
            if check_validity(text.as_str()).is_err() {
                return Some(Some(EnumShaderError::InvalidShaderSource));
            }
            match parse_version(text.as_str()) {
                None => Some(None),
                Some(v) => {
                    if max_version < v {
                        if let Err(e) = &r.m_downgrade_read {
                            return Some(Some(copy_error(e)));
                        }
                    }
                    None
                },
            }
        },
    }
}

/// The source of `s` once prepared with report `r` (see `spec_prepared_source`).
fn prepared_source(source: EnumShaderSource, r: &StageReport, all_cached: bool) -> (out: EnumShaderSource)
    ensures
        spec_source_view(out) == spec_prepared_source(
            ShaderStage { m_stage: EnumShaderStage::Vertex, m_source: source, m_is_cached: false },
            *r,
            all_cached,
        ),
{
    proof {
        reveal_strlit("spv");
    }
    match source {
        EnumShaderSource::FromStr(t) => EnumShaderSource::FromStr(t),
        EnumShaderSource::FromFile(p) => {
            let spv = str_eq(r.m_extension.as_str(), "spv");
            if all_cached {
                EnumShaderSource::FromFile(cache_path(r.m_file_name.as_str(), r.m_extension.as_str()))
            } else if r.m_cache_usable || spv {
                let mut q = "res/shaders/".to_owned();
                if spv {
                    q.append(r.m_file_stem.as_str());
                } else {
                    q.append(r.m_file_name.as_str());
                }
                EnumShaderSource::FromFile(q)
            } else {
                EnumShaderSource::FromFile(p)
            }
        },
    }
}

/// A shader program.
pub struct Shader {
    pub m_state: EnumShaderState,
    pub m_version: u16,
    pub m_shader_lang: EnumShaderLanguageType,
    pub m_stages: Vec<ShaderStage>,
    pub m_program_id: u32,
}

impl Shader {
    /// A GLSL 4.2 shader not yet created.
    pub fn default() -> (r: Shader)
        ensures
            r.m_state == EnumShaderState::NotCreated,
            r.m_version == 420,
            r.m_shader_lang == EnumShaderLanguageType::Glsl,
            r.m_stages@.len() == 0,
            r.m_program_id == 0,
    {
        Shader {
            m_state: EnumShaderState::NotCreated,
            m_version: 420,
            m_shader_lang: EnumShaderLanguageType::Glsl,
            m_stages: Vec::new(),
            m_program_id: 0,
        }
    }

    /// Readies the stages of a new shader: at least one is needed
    /// (`NoShaderStagesProvided`); the reports are then checked in order,
    /// and the first failure decides (see `spec_report_failure`: the read
    /// error, `InvalidShaderSource`, or `None` for a text without a readable
    /// version). Otherwise every stage is prepared (see `spec_prepared`):
    /// cached only if all are, and the version is the most the context
    /// supports (`max_version`).
    pub fn prepare_stages(stages: Vec<ShaderStage>, reports: &Vec<StageReport>, max_version: u16) -> (r: Option<
        Result<(Vec<ShaderStage>, u16), EnumShaderError>,
    >)
        requires
            reports@.len() == stages@.len(),
            forall|k: int|
                0 <= k < stages@.len() && (#[trigger] stages@[k]).m_source is FromFile ==> reports@[k].m_extension@.len()
                    > 0,
            forall|k: int|
                0 <= k < stages@.len() ==> ((#[trigger] stages@[k]).m_source matches EnumShaderSource::FromStr(t)
                    ==> (reports@[k].m_text matches Ok(x) && x@ == t@)),
        ensures
            stages@.len() == 0 ==> r == Some(
                Err::<(Vec<ShaderStage>, u16), EnumShaderError>(EnumShaderError::NoShaderStagesProvided),
            ),
            stages@.len() > 0 && spec_first_failure(reports@, 0, max_version) < stages@.len() ==> r == match spec_report_failure(
                reports@[spec_first_failure(reports@, 0, max_version)],
                max_version,
            ) {
                Some(Some(e)) => Some(Err::<(Vec<ShaderStage>, u16), EnumShaderError>(e)),
                _ => None,
            },
            stages@.len() > 0 && spec_first_failure(reports@, 0, max_version) == stages@.len() ==> (r matches Some(Ok(p))
                && p.1 == max_version && p.0@.len() == stages@.len() && forall|k: int|
                0 <= k < stages@.len() ==> spec_prepared(
                    #[trigger] p.0@[k],
                    stages@[k],
                    reports@[k],
                    spec_all_cached(stages@, reports@),
                )),
    {
        if stages.len() == 0 {
            return Some(Err(EnumShaderError::NoShaderStagesProvided));
        }
        proof {
            lemma_first_failure(reports@, 0, max_version);
        }
        let mut k: usize = 0;
        let mut all_cached = true;
        while k < reports.len()
            invariant
                0 <= k <= reports@.len() == stages@.len(),
                k <= spec_first_failure(reports@, 0, max_version) <= reports@.len(),
                spec_first_failure(reports@, 0, max_version) < reports@.len() ==> spec_report_failure(
                    reports@[spec_first_failure(reports@, 0, max_version)],
                    max_version,
                ) is Some,
                forall|j: int| 0 <= j < spec_first_failure(reports@, 0, max_version) ==> spec_report_failure(#[trigger] reports@[j], max_version) is None,
                all_cached <==> forall|j: int|
                    0 <= j < k ==> (#[trigger] stages@[j]).m_source is FromFile && reports@[j].m_cache_usable,
            decreases reports.len() - k,
        {
            match report_failure(&reports[k], max_version) {
                Some(Some(e)) => {
                    return Some(Err(e));
                },
                Some(None) => {
                    return None;
                },
                None => {},
            }
            let is_file = match &stages[k].m_source {
                EnumShaderSource::FromFile(_) => true,
                EnumShaderSource::FromStr(_) => false,
            };
            let ghost before = all_cached;
            all_cached = all_cached && is_file && reports[k].m_cache_usable;
            proof {
                if before && !all_cached {
                    assert(!(stages@[k as int].m_source is FromFile && reports@[k as int].m_cache_usable));
                }
            }
            k = k + 1;
        }
        assert(all_cached == spec_all_cached(stages@, reports@));
        let mut out: Vec<ShaderStage> = Vec::new();
        let mut rest = stages;
        let ghost orig = rest@;
        let mut j: usize = 0;
        while rest.len() > 0
            invariant
                j == out@.len(),
                orig == stages@,
                rest@ == orig.skip(j as int),
                j <= orig.len() == reports@.len(),
                reports@.len() == reports.len(),
                all_cached == spec_all_cached(orig, reports@),
                forall|m: int|
                    0 <= m < j ==> spec_prepared(#[trigger] out@[m], orig[m], reports@[m], all_cached),
            decreases rest.len(),
        {
            assert(j < orig.len());
            let stage = rest.remove(0);
            assert(stage == orig[j as int]);
            assert(rest@ =~= orig.skip(j + 1));
            let src = prepared_source(stage.m_source, &reports[j], all_cached);
            let prepared = ShaderStage { m_stage: stage.m_stage, m_source: src, m_is_cached: all_cached };
            out.push(prepared);
            j = j + 1;
        }
        Some(Ok((out, max_version)))
    }

    /// A new shader of `stages`: they are checked and prepared with their
    /// reports (see `prepare_stages`: no stage is `NoShaderStagesProvided`,
    /// and the first failing report's error is returned), then the shader's
    /// language is read from its first stage as prepared (see
    /// `spec_first_language`: a literal's own text, or the extension of the
    /// prepared file's path and `first_file_text`, the text read from that
    /// file). The reports of literal stages hold the literals. Only OpenGL is built in; Vulkan is
    /// refused with `InvalidApi`. A text whose version cannot be read is left
    /// out, as preparing such a stage cannot go on.
    pub fn new(
        stages: Vec<ShaderStage>,
        reports: &Vec<StageReport>,
        max_version: u16,
        first_file_text: &str,
        api: EnumRendererApi,
    ) -> (r: Result<Shader, EnumShaderError>)
        requires
            reports@.len() == stages@.len(),
            forall|k: int|
                0 <= k < stages@.len() && (#[trigger] stages@[k]).m_source is FromFile ==> reports@[k].m_extension@.len()
                    > 0,
            forall|k: int|
                0 <= k < stages@.len() ==> ((#[trigger] stages@[k]).m_source matches EnumShaderSource::FromStr(t)
                    ==> (reports@[k].m_text matches Ok(x) && x@ == t@)),
            !spec_version_unreadable(stages@, reports@, max_version),
        ensures
            stages@.len() == 0 ==> r == Err::<Shader, EnumShaderError>(EnumShaderError::NoShaderStagesProvided),
            stages@.len() > 0 && spec_first_failure(reports@, 0, max_version) < stages@.len() ==> (spec_report_failure(
                reports@[spec_first_failure(reports@, 0, max_version)],
                max_version,
            ) matches Some(Some(e)) && r == Err::<Shader, EnumShaderError>(e)),
            stages@.len() > 0 && spec_first_failure(reports@, 0, max_version) == stages@.len() && api
                == EnumRendererApi::Vulkan ==> r == Err::<Shader, EnumShaderError>(EnumShaderError::InvalidApi),
            stages@.len() > 0 && spec_first_failure(reports@, 0, max_version) == stages@.len() && api
                == EnumRendererApi::OpenGL ==> (r matches Ok(s) && s.m_state == EnumShaderState::Created
                && s.m_version == max_version && s.m_stages@.len() == stages@.len() && (forall|k: int|
                0 <= k < stages@.len() ==> spec_prepared(
                    #[trigger] s.m_stages@[k],
                    stages@[k],
                    reports@[k],
                    spec_all_cached(stages@, reports@),
                )) && s.m_shader_lang == spec_first_language(
                spec_prepared_source(stages@[0], reports@[0], spec_all_cached(stages@, reports@)),
                first_file_text@,
            ) && s.m_program_id == 0),
    {
        proof {
            lemma_first_failure(reports@, 0, max_version);
        }
        let prepared = Self::prepare_stages(stages, reports, max_version);
        let (prepared_stages, version) = match prepared {
            Some(Ok(p)) => p,
            Some(Err(e)) => {
                return Err(e);
            },
            None => {
                return Err(EnumShaderError::InvalidShaderSource);
            },
        };
        let lang = match &prepared_stages[0].m_source {
            EnumShaderSource::FromStr(t) => parse_language(None, t.as_str()),
            EnumShaderSource::FromFile(p) => parse_language(path_extension(p.as_str()), first_file_text),
        };
        match api {
            EnumRendererApi::Vulkan => Err(EnumShaderError::InvalidApi),
            EnumRendererApi::OpenGL => Ok(
                Shader {
                    m_state: EnumShaderState::Created,
                    m_version: version,
                    m_shader_lang: lang,
                    m_stages: prepared_stages,
                    m_program_id: 0,
                },
            ),
        }
    }

    pub fn get_version(&self) -> (r: u16)
        ensures
            r == self.m_version,
    {
        self.m_version
    }

    pub fn get_lang(&self) -> (r: EnumShaderLanguageType)
        ensures
            r == self.m_shader_lang,
    {
        self.m_shader_lang
    }

    pub fn get_id(&self) -> (r: u32)
        ensures
            r == self.m_program_id,
    {
        self.m_program_id
    }

    /// Records that the program was sent to the context under `program_id`.
    pub fn mark_sent(&mut self, program_id: u32)
        ensures
            *final(self) == (Shader { m_state: EnumShaderState::Sent, m_program_id: program_id, ..*old(self) }),
    {
        self.m_program_id = program_id;
        self.m_state = EnumShaderState::Sent;
    }

    /// Frees a sent shader: returns whether its program must be deleted, and
    /// it is then deleted; any other shader is left as it is.
    pub fn free(&mut self) -> (r: bool)
        ensures
            r == (old(self).m_state == EnumShaderState::Sent),
            r ==> *final(self) == (Shader { m_state: EnumShaderState::Deleted, ..*old(self) }),
            !r ==> *final(self) == *old(self),
    {
        if self.m_state != EnumShaderState::Sent {
            return false;
        }
        self.m_state = EnumShaderState::Deleted;
        true
    }
}

} // verus!
