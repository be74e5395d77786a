//! The OpenGL side of a shader: the API names of its stages, the checks made
//! on what the driver reports while it is built, and the cache of uniform
//! locations.

use vstd::prelude::*;

use crate::graphics::gl_debug::{append_hex, spec_hex};
use crate::graphics::shader::{
    spec_source_view, EnumError, EnumShaderError, EnumShaderSource, EnumShaderStage, ShaderStage,
};
use crate::strings::str_eq;

verus! {

/// Whether two stages are the same: of the same kind, from the same source.
pub open spec fn spec_same_stage(a: ShaderStage, b: ShaderStage) -> bool {
    a.m_stage == b.m_stage && spec_source_view(a.m_source) == spec_source_view(b.m_source)
}

/// Whether some stage of `s` is the same as `x`.
pub open spec fn spec_has_stage(s: Seq<ShaderStage>, x: ShaderStage) -> bool {
    exists|j: int| 0 <= j < s.len() && spec_same_stage(#[trigger] s[j], x)
}

/// The first `n` stages of `s`, each kept only where no same stage came before.
pub open spec fn spec_distinct_stages(s: Seq<ShaderStage>, n: int) -> Seq<ShaderStage>
    decreases n,
{
    if n <= 0 {
        Seq::empty()
    } else {
        let d = spec_distinct_stages(s, n - 1);
        if spec_has_stage(d, s[n - 1]) {
            d
        } else {
            d.push(s[n - 1])
        }
    }
}

/// The API name recorded for stage kind `stage` in `ids`, if any.
pub open spec fn spec_shader_id(ids: Seq<(EnumShaderStage, u32)>, stage: EnumShaderStage) -> Option<u32>
    decreases ids.len(),
{
    if ids.len() == 0 {
        None
    } else if ids.last().0 == stage {
        Some(ids.last().1)
    } else {
        spec_shader_id(ids.drop_last(), stage)
    }
}

/// The location cached for uniform `name` in `cache`, if any.
pub open spec fn spec_uniform(cache: Seq<(Seq<char>, i32)>, name: Seq<char>) -> Option<i32>
    decreases cache.len(),
{
    if cache.len() == 0 {
        None
    } else if cache.last().0 == name {
        Some(cache.last().1)
    } else {
        spec_uniform(cache.drop_last(), name)
    }
}

/// A status the driver reports, read as its boolean byte: true unless that
/// byte is zero.
pub open spec fn spec_status_ok(status: i32) -> bool {
    (status as u8) != 0u8
}

/// The name a stage kind is shown with.
pub open spec fn spec_stage_label(s: EnumShaderStage) -> Seq<char> {
    match s {
        EnumShaderStage::Vertex => "Vertex"@,
        EnumShaderStage::Fragment => "Fragment"@,
        EnumShaderStage::Geometry => "Geometry"@,
        EnumShaderStage::Compute => "Compute"@,
    }
}

/// The line describing one stage: its kind, its source and whether it is cached.
pub open spec fn spec_stage_line(s: ShaderStage) -> Seq<char> {
    "\n"@ + "                                                                                                                     "@ + "[GlShader] |"@ + spec_stage_label(s.m_stage) + "| ("@ + (match s.m_source {
        EnumShaderSource::FromFile(p) => "File : "@ + p@,
        EnumShaderSource::FromStr(t) => "Literal : "@ + t@,
    }) + ", "@ + (if s.m_is_cached {
        "true"@
    } else {
        "false"@
    }) + ")"@
}

/// The lines describing the first `n` stages of `s`.
pub open spec fn spec_stage_lines(s: Seq<ShaderStage>, n: int) -> Seq<char>
    decreases n,
{
    if n <= 0 {
        Seq::empty()
    } else {
        spec_stage_lines(s, n - 1) + spec_stage_line(s[n - 1])
    }
}

/// The supported binary formats as a list of hexadecimal numbers.
pub open spec fn spec_formats_text(formats: Seq<i32>) -> Seq<char> {
    "["@ + spec_formats_items(formats, formats.len() as int) + "]"@
}

/// The first `n` formats, each `0x` and its hexadecimal digits, separated by commas.
pub open spec fn spec_formats_items(formats: Seq<i32>, n: int) -> Seq<char>
    decreases n,
{
    if n <= 0 {
        Seq::empty()
    } else if n == 1 {
        "0x"@ + spec_hex((formats[0] as u32) as nat)
    } else {
        spec_formats_items(formats, n - 1) + ", "@ + "0x"@ + spec_hex((formats[n - 1] as u32) as nat)
    }
}

/// `ids` without the entries of stage kind `stage`, the others in order.
pub open spec fn spec_without_kind(ids: Seq<(EnumShaderStage, u32)>, stage: EnumShaderStage) -> Seq<
    (EnumShaderStage, u32),
>
    decreases ids.len(),
{
    if ids.len() == 0 {
        ids
    } else {
        let rest = spec_without_kind(ids.drop_last(), stage);
        if ids.last().0 == stage {
            rest
        } else {
            rest.push(ids.last())
        }
    }
}

/// `cache` without the entries of uniform `name`, the others in order.
pub open spec fn spec_without_name(cache: Seq<(Seq<char>, i32)>, name: Seq<char>) -> Seq<(Seq<char>, i32)>
    decreases cache.len(),
{
    if cache.len() == 0 {
        cache
    } else {
        let rest = spec_without_name(cache.drop_last(), name);
        if cache.last().0 == name {
            rest
        } else {
            rest.push(cache.last())
        }
    }
}

/// Whether no stage kind has two names in `ids`.
pub open spec fn spec_unique_kinds(ids: Seq<(EnumShaderStage, u32)>) -> bool {
    forall|i: int, j: int| 0 <= i < j < ids.len() ==> (#[trigger] ids[i]).0 != (#[trigger] ids[j]).0
}

/// Whether no uniform has two locations in `cache`.
pub open spec fn spec_unique_names(cache: Seq<(Seq<char>, i32)>) -> bool {
    forall|i: int, j: int| 0 <= i < j < cache.len() ==> (#[trigger] cache[i]).0 != (#[trigger] cache[j]).0
}

/// Whether no stage of `s` is the same as another.
pub open spec fn spec_stages_distinct(s: Seq<ShaderStage>) -> bool {
    forall|i: int, j: int| 0 <= i < j < s.len() ==> !spec_same_stage(#[trigger] s[i], #[trigger] s[j])
}

/// The stages kept once each are distinct.
pub proof fn lemma_distinct_stages(s: Seq<ShaderStage>, n: int)
    requires
        0 <= n <= s.len(),
    ensures
        spec_stages_distinct(spec_distinct_stages(s, n)),
    decreases n,
{
    if n > 0 {
        lemma_distinct_stages(s, n - 1);
    }
}

proof fn lemma_without_kind(ids: Seq<(EnumShaderStage, u32)>, stage: EnumShaderStage)
    ensures
        forall|i: int|
            0 <= i < spec_without_kind(ids, stage).len() ==> (#[trigger] spec_without_kind(ids, stage)[i]).0
                != stage,
        forall|x: (EnumShaderStage, u32)| spec_without_kind(ids, stage).contains(x) ==> ids.contains(x),
        forall|other: EnumShaderStage|
            other != stage ==> spec_shader_id(#[trigger] spec_without_kind(ids, stage), other) == spec_shader_id(
                ids,
                other,
            ),
        spec_unique_kinds(ids) ==> spec_unique_kinds(spec_without_kind(ids, stage)),
    decreases ids.len(),
{
    if ids.len() > 0 {
        lemma_without_kind(ids.drop_last(), stage);
        let rest = spec_without_kind(ids.drop_last(), stage);
        if ids.last().0 != stage {
            assert(spec_without_kind(ids, stage).drop_last() =~= rest);
        }
        assert forall|other: EnumShaderStage| other != stage implies spec_shader_id(
            #[trigger] spec_without_kind(ids, stage),
            other,
        ) == spec_shader_id(ids, other) by {
            assert(spec_shader_id(rest, other) == spec_shader_id(ids.drop_last(), other));
        }
        assert forall|x: (EnumShaderStage, u32)| spec_without_kind(ids, stage).contains(x) implies ids.contains(
            x,
        ) by {
            let w = spec_without_kind(ids, stage);
            let i = choose|i: int| 0 <= i < w.len() && w[i] == x;
            if i < rest.len() {
                assert(rest[i] == x);
                assert(rest.contains(x));
                assert(ids.drop_last().contains(x));
                let m = choose|m: int| 0 <= m < ids.drop_last().len() && ids.drop_last()[m] == x;
                assert(ids[m] == x);
            } else {
                assert(ids[ids.len() - 1] == x);
            }
        }
        if spec_unique_kinds(ids) {
            assert(spec_unique_kinds(ids.drop_last())) by {
                assert forall|i: int, j: int| 0 <= i < j < ids.drop_last().len() implies (
                #[trigger] ids.drop_last()[i]).0 != (#[trigger] ids.drop_last()[j]).0 by {
                    assert(ids[i] == ids.drop_last()[i] && ids[j] == ids.drop_last()[j]);
                }
            }
            if ids.last().0 != stage {
                let r = rest.push(ids.last());
                assert forall|i: int, j: int| 0 <= i < j < r.len() implies (#[trigger] r[i]).0 != (
                #[trigger] r[j]).0 by {
                    if j == r.len() - 1 {
                        assert(r[i] == rest[i]);
                        assert(rest.contains(r[i]));
                        assert(ids.drop_last().contains(r[i]));
                        let m = choose|m: int| 0 <= m < ids.drop_last().len() && ids.drop_last()[m] == r[i];
                        assert(ids[m] == r[i]);
                        assert(ids[m].0 != ids[ids.len() - 1].0);
                    }
                }
            }
        }
    }
}

proof fn lemma_without_name(cache: Seq<(Seq<char>, i32)>, name: Seq<char>)
    ensures
        forall|i: int|
            0 <= i < spec_without_name(cache, name).len() ==> (#[trigger] spec_without_name(cache, name)[i]).0
                != name,
        forall|x: (Seq<char>, i32)| spec_without_name(cache, name).contains(x) ==> cache.contains(x),
        forall|other: Seq<char>|
            other != name ==> spec_uniform(#[trigger] spec_without_name(cache, name), other) == spec_uniform(
                cache,
                other,
            ),
        spec_unique_names(cache) ==> spec_unique_names(spec_without_name(cache, name)),
    decreases cache.len(),
{
    if cache.len() > 0 {
        lemma_without_name(cache.drop_last(), name);
        let rest = spec_without_name(cache.drop_last(), name);
        if cache.last().0 != name {
            assert(spec_without_name(cache, name).drop_last() =~= rest);
        }
        assert forall|other: Seq<char>| other != name implies spec_uniform(
            #[trigger] spec_without_name(cache, name),
            other,
        ) == spec_uniform(cache, other) by {
            assert(spec_uniform(rest, other) == spec_uniform(cache.drop_last(), other));
        }
        assert forall|x: (Seq<char>, i32)| spec_without_name(cache, name).contains(x) implies cache.contains(x) by {
            let w = spec_without_name(cache, name);
            let i = choose|i: int| 0 <= i < w.len() && w[i] == x;
            if i < rest.len() {
                assert(rest[i] == x);
                assert(rest.contains(x));
                assert(cache.drop_last().contains(x));
                let m = choose|m: int| 0 <= m < cache.drop_last().len() && cache.drop_last()[m] == x;
                assert(cache[m] == x);
            } else {
                assert(cache[cache.len() - 1] == x);
            }
        }
        if spec_unique_names(cache) {
            assert(spec_unique_names(cache.drop_last())) by {
                assert forall|i: int, j: int| 0 <= i < j < cache.drop_last().len() implies (
                #[trigger] cache.drop_last()[i]).0 != (#[trigger] cache.drop_last()[j]).0 by {
                    assert(cache[i] == cache.drop_last()[i] && cache[j] == cache.drop_last()[j]);
                }
            }
            if cache.last().0 != name {
                let r = rest.push(cache.last());
                assert forall|i: int, j: int| 0 <= i < j < r.len() implies (#[trigger] r[i]).0 != (
                #[trigger] r[j]).0 by {
                    if j == r.len() - 1 {
                        assert(r[i] == rest[i]);
                        assert(rest.contains(r[i]));
                        assert(cache.drop_last().contains(r[i]));
                        let m = choose|m: int| 0 <= m < cache.drop_last().len() && cache.drop_last()[m] == r[i];
                        assert(cache[m] == r[i]);
                        assert(cache[m].0 != cache[cache.len() - 1].0);
                    }
                }
            }
        }
    }
}

/// A shader program as the OpenGL back end builds it.
pub struct GlShader {
    pub m_program_id: u32,
    /// The API name of each stage kind, the latest recorded last.
    pub m_shader_ids: Vec<(EnumShaderStage, u32)>,
    pub m_shader_stages: Vec<ShaderStage>,
    pub m_uniform_cache: Vec<(String, i32)>,
}

impl GlShader {
    /// The uniform cache as names and locations.
    pub open spec fn spec_cache(&self) -> Seq<(Seq<char>, i32)> {
        self.m_uniform_cache@.map_values(|e: (String, i32)| (e.0@, e.1))
    }

    /// The shader's invariant: no stage is kept twice, no stage kind has two
    /// API names and no uniform two cached locations.
    pub open spec fn spec_wf(&self) -> bool {
        &&& spec_stages_distinct(self.m_shader_stages@)
        &&& spec_unique_kinds(self.m_shader_ids@)
        &&& spec_unique_names(self.spec_cache())
    }

    /// A shader of `shader_stages` (the same stage given twice is kept once),
    /// without a program, stage names or uniforms yet.
    pub fn new(shader_stages: Vec<ShaderStage>) -> (r: GlShader)
        ensures
            r.m_program_id == 0,
            r.m_shader_ids@.len() == 0,
            r.m_uniform_cache@.len() == 0,
            r.m_shader_stages@ == spec_distinct_stages(shader_stages@, shader_stages@.len() as int),
            r.spec_wf(),
    {
        let ghost orig = shader_stages@;
        let n = shader_stages.len();
        let mut rest = shader_stages;
        let mut kept: Vec<ShaderStage> = Vec::new();
        let mut k: usize = 0;
        while rest.len() > 0
            invariant
                rest@ == orig.skip(k as int),
                k <= orig.len(),
                orig.len() == n,
                kept@ == spec_distinct_stages(orig, k as int),
            decreases rest.len(),
        {
            assert(k < orig.len());
            let stage = rest.remove(0);
            assert(stage == orig[k as int]);
            assert(rest@ =~= orig.skip(k + 1));
            let mut seen = false;
            let mut j: usize = 0;
            while j < kept.len()
                invariant
                    0 <= j <= kept@.len(),
                    seen <==> exists|m: int| 0 <= m < j && spec_same_stage(#[trigger] kept@[m], stage),
                decreases kept.len() - j,
            {
                let same = same_stage(&kept[j], &stage);
                proof {
                    if same {
                        assert(spec_same_stage(kept@[j as int], stage));
                    }
                    if !same && !seen {
                        assert forall|m: int| 0 <= m < j + 1 implies !spec_same_stage(#[trigger] kept@[m], stage) by {
                            if m < j {
                            }
                        }
                    }
                }
                seen = seen || same;
                j = j + 1;
            }
            if !seen {
                kept.push(stage);
            }
            k = k + 1;
        }
        assert(orig.skip(k as int).len() == 0);
        proof {
            lemma_distinct_stages(orig, orig.len() as int);
        }
        let r = GlShader {
            m_program_id: 0,
            m_shader_ids: Vec::new(),
            m_shader_stages: kept,
            m_uniform_cache: Vec::new(),
        };
        assert(r.spec_cache() =~= Seq::<(Seq<char>, i32)>::empty());
        r
    }

    /// Records that the API created stage `stage` under `shader_id`, in
    /// place of a name recorded before for the kind; a zero name means the
    /// kind was not accepted (`ShaderSourcingError`).
    pub fn record_shader_id(&mut self, stage: EnumShaderStage, shader_id: u32) -> (r: Result<(), EnumShaderError>)
        ensures
            shader_id == 0 ==> r == Err::<(), EnumShaderError>(
                EnumShaderError::OpenGLShaderError(EnumError::ShaderSourcingError),
            ) && final(self).m_shader_ids@ == old(self).m_shader_ids@,
            shader_id != 0 ==> r is Ok && final(self).m_shader_ids@ == spec_without_kind(
                old(self).m_shader_ids@,
                stage,
            ).push((stage, shader_id)),
            shader_id != 0 ==> spec_shader_id(final(self).m_shader_ids@, stage) == Some(shader_id),
            forall|other: EnumShaderStage|
                other != stage ==> spec_shader_id(final(self).m_shader_ids@, other) == spec_shader_id(
                    old(self).m_shader_ids@,
                    other,
                ),
            old(self).spec_wf() ==> final(self).spec_wf(),
            final(self).m_program_id == old(self).m_program_id,
            final(self).m_shader_stages@ == old(self).m_shader_stages@,
            final(self).m_uniform_cache@ == old(self).m_uniform_cache@,
    {
        if shader_id == 0 {
            return Err(EnumShaderError::OpenGLShaderError(EnumError::ShaderSourcingError));
        }
        let ghost ids = self.m_shader_ids@;
        let mut kept: Vec<(EnumShaderStage, u32)> = Vec::new();
        let mut k: usize = 0;
        while k < self.m_shader_ids.len()
            invariant
                0 <= k <= self.m_shader_ids@.len(),
                self.m_shader_ids@ == ids,
                kept@ == spec_without_kind(ids.take(k as int), stage),
            decreases self.m_shader_ids.len() - k,
        {
            let e = self.m_shader_ids[k];
            assert(ids.take(k + 1).drop_last() =~= ids.take(k as int));
            if e.0 != stage {
                kept.push(e);
            }
            k = k + 1;
        }
        assert(ids.take(k as int) =~= ids);
        proof {
            lemma_without_kind(ids, stage);
            let f = spec_without_kind(ids, stage).push((stage, shader_id));
            assert(f.drop_last() =~= spec_without_kind(ids, stage));
            if spec_unique_kinds(ids) {
                assert forall|i: int, j: int| 0 <= i < j < f.len() implies (#[trigger] f[i]).0 != (
                #[trigger] f[j]).0 by {
                    if j == f.len() - 1 {
                        assert(f[i] == spec_without_kind(ids, stage)[i]);
                    }
                }
            }
        }
        kept.push((stage, shader_id));
        self.m_shader_ids = kept;
        Ok(())
    }

    /// The API name of stage kind `stage`, if one was recorded.
    pub fn shader_id(&self, stage: EnumShaderStage) -> (r: Option<u32>)
        ensures
            r == spec_shader_id(self.m_shader_ids@, stage),
    {
        let mut k: usize = self.m_shader_ids.len();
        assert(self.m_shader_ids@.take(k as int) =~= self.m_shader_ids@);
        while k > 0
            invariant
                k <= self.m_shader_ids@.len(),
                spec_shader_id(self.m_shader_ids@, stage) == spec_shader_id(self.m_shader_ids@.take(k as int), stage),
            decreases k,
        {
            let (s, id) = self.m_shader_ids[k - 1];
            let ghost t = self.m_shader_ids@.take(k as int);
            assert(t.last() == self.m_shader_ids@[k - 1]);
            assert(t.drop_last() =~= self.m_shader_ids@.take(k - 1));
            if s == stage {
                return Some(id);
            }
            k = k - 1;
        }
        assert(self.m_shader_ids@.take(0) =~= Seq::<(EnumShaderStage, u32)>::empty());
        None
    }

    /// The positions of the stages that are read from the cache (compiled
    /// from their binary), in order; the others are compiled from source.
    pub fn cached_stages(&self) -> (r: Vec<usize>)
        ensures
            r@.len() <= self.m_shader_stages@.len(),
            forall|i: int| 0 <= i < r@.len() ==> r@[i] < self.m_shader_stages@.len() && self.m_shader_stages@[r@[i] as int].m_is_cached,
            forall|i: int, j: int| 0 <= i < j < r@.len() ==> r@[i] < r@[j],
            forall|k: int| 0 <= k < self.m_shader_stages@.len() && (#[trigger] self.m_shader_stages@[k]).m_is_cached ==> r@.contains(k as usize),
    {
        let mut out: Vec<usize> = Vec::new();
        let mut k: usize = 0;
        while k < self.m_shader_stages.len()
            invariant
                0 <= k <= self.m_shader_stages@.len(),
                out@.len() <= k,
                forall|i: int| 0 <= i < out@.len() ==> out@[i] < k && self.m_shader_stages@[out@[i] as int].m_is_cached,
                forall|i: int, j: int| 0 <= i < j < out@.len() ==> out@[i] < out@[j],
                forall|m: int| 0 <= m < k && (#[trigger] self.m_shader_stages@[m]).m_is_cached ==> out@.contains(m as usize),
            decreases self.m_shader_stages.len() - k,
        {
            let ghost before = out@;
            if self.m_shader_stages[k].m_is_cached {
                out.push(k);
                assert(out@[out@.len() - 1] == k);
            }
            proof {
                assert forall|m: int| 0 <= m < k + 1 && (#[trigger] self.m_shader_stages@[m]).m_is_cached implies out@.contains(m as usize) by {
                    if m < k {
                        let i = choose|i: int| 0 <= i < before.len() && before[i] == m as usize;
                        assert(out@[i] == m as usize);
                    } else {
                        assert(out@[out@.len() - 1] == k);
                    }
                }
            }
            k = k + 1;
        }
        out
    }

    /// Records that the program was created under `program_id`.
    pub fn set_program(&mut self, program_id: u32)
        ensures
            final(self).m_program_id == program_id,
            old(self).spec_wf() ==> final(self).spec_wf(),
            final(self).m_shader_ids@ == old(self).m_shader_ids@,
            final(self).m_shader_stages@ == old(self).m_shader_stages@,
            final(self).m_uniform_cache@ == old(self).m_uniform_cache@,
    {
        self.m_program_id = program_id;
    }

    /// The location cached for uniform `name`, if it was looked up before.
    pub fn uniform_location(&self, name: &str) -> (r: Option<i32>)
        ensures
            r == spec_uniform(self.spec_cache(), name@),
    {
        let mut k: usize = self.m_uniform_cache.len();
        assert(self.spec_cache().take(k as int) =~= self.spec_cache());
        while k > 0
            invariant
                k <= self.m_uniform_cache@.len(),
                spec_uniform(self.spec_cache(), name@) == spec_uniform(self.spec_cache().take(k as int), name@),
            decreases k,
        {
            let ghost t = self.spec_cache().take(k as int);
            assert(t.last() == self.spec_cache()[k - 1]);
            assert(t.drop_last() =~= self.spec_cache().take(k - 1));
            if str_eq(self.m_uniform_cache[k - 1].0.as_str(), name) {
                return Some(self.m_uniform_cache[k - 1].1);
            }
            k = k - 1;
        }
        assert(self.spec_cache().take(0) =~= Seq::<(Seq<char>, i32)>::empty());
        None
    }

    /// Records the location the program gives uniform `name`, in place of a
    /// location cached before for it; -1 (no such uniform) is refused with
    /// `UniformNotFound`. A uniform is looked up, and its value uploaded,
    /// only the first time it is used.
    pub fn cache_uniform(&mut self, name: &str, location: i32) -> (r: Result<(), EnumShaderError>)
        ensures
            location == -1 ==> r == Err::<(), EnumShaderError>(
                EnumShaderError::OpenGLShaderError(EnumError::UniformNotFound),
            ) && final(self).spec_cache() == old(self).spec_cache(),
            location != -1 ==> r is Ok && final(self).spec_cache() == spec_without_name(
                old(self).spec_cache(),
                name@,
            ).push((name@, location)),
            location != -1 ==> spec_uniform(final(self).spec_cache(), name@) == Some(location),
            forall|other: Seq<char>|
                other != name@ ==> spec_uniform(final(self).spec_cache(), other) == spec_uniform(
                    old(self).spec_cache(),
                    other,
                ),
            old(self).spec_wf() ==> final(self).spec_wf(),
            final(self).m_program_id == old(self).m_program_id,
            final(self).m_shader_ids@ == old(self).m_shader_ids@,
            final(self).m_shader_stages@ == old(self).m_shader_stages@,
    {
        if location == -1 {
            return Err(EnumShaderError::OpenGLShaderError(EnumError::UniformNotFound));
        }
        let ghost cache = self.spec_cache();
        let mut kept: Vec<(String, i32)> = Vec::new();
        let mut k: usize = 0;
        while k < self.m_uniform_cache.len()
            invariant
                0 <= k <= self.m_uniform_cache@.len(),
                self.spec_cache() == cache,
                kept@.map_values(|e: (String, i32)| (e.0@, e.1)) == spec_without_name(cache.take(k as int), name@),
            decreases self.m_uniform_cache.len() - k,
        {
            assert(cache.take(k + 1).drop_last() =~= cache.take(k as int));
            assert(cache[k as int] == (self.m_uniform_cache@[k as int].0@, self.m_uniform_cache@[k as int].1));
            if !str_eq(self.m_uniform_cache[k].0.as_str(), name) {
                let e = (self.m_uniform_cache[k].0.clone(), self.m_uniform_cache[k].1);
                let ghost before = kept@;
                kept.push(e);
                assert(kept@.map_values(|e: (String, i32)| (e.0@, e.1)) =~= before.map_values(
                    |e: (String, i32)| (e.0@, e.1),
                ).push(cache[k as int]));
            }
            k = k + 1;
        }
        assert(cache.take(k as int) =~= cache);
        proof {
            lemma_without_name(cache, name@);
            let f = spec_without_name(cache, name@).push((name@, location));
            assert(f.drop_last() =~= spec_without_name(cache, name@));
            if spec_unique_names(cache) {
                assert forall|i: int, j: int| 0 <= i < j < f.len() implies (#[trigger] f[i]).0 != (
                #[trigger] f[j]).0 by {
                    if j == f.len() - 1 {
                        assert(f[i] == spec_without_name(cache, name@)[i]);
                    }
                }
            }
        }
        let ghost before = kept@;
        kept.push((name.to_owned(), location));
        self.m_uniform_cache = kept;
        assert(self.spec_cache() =~= before.map_values(|e: (String, i32)| (e.0@, e.1)).push((name@, location)));
        Ok(())
    }

    /// The description of the shader's stages, one line each.
    pub fn to_string(&self) -> (r: String)
        ensures
            r@ == spec_stage_lines(self.m_shader_stages@, self.m_shader_stages@.len() as int),
    {
        let mut out = String::new();
        let mut k: usize = 0;
        while k < self.m_shader_stages.len()
            invariant
                0 <= k <= self.m_shader_stages@.len(),
                out@ == spec_stage_lines(self.m_shader_stages@, k as int),
            decreases self.m_shader_stages.len() - k,
        {
            append_stage_line(&mut out, &self.m_shader_stages[k]);
            k = k + 1;
        }
        out
    }
}

fn same_stage(a: &ShaderStage, b: &ShaderStage) -> (r: bool)
    ensures
        r == spec_same_stage(*a, *b),
{
    if a.m_stage != b.m_stage {
        return false;
    }
    match (&a.m_source, &b.m_source) {
        (EnumShaderSource::FromFile(x), EnumShaderSource::FromFile(y)) => str_eq(x.as_str(), y.as_str()),
        (EnumShaderSource::FromStr(x), EnumShaderSource::FromStr(y)) => str_eq(x.as_str(), y.as_str()),
        _ => false,
    }
}

fn append_stage_line(out: &mut String, s: &ShaderStage)
    ensures
        final(out)@ == old(out)@ + spec_stage_line(*s),
{
    let ghost before = out@;
    out.append("\n");
    out.append("                                                                                                                     ");
    out.append("[GlShader] |");
    let label = match s.m_stage {
        EnumShaderStage::Vertex => "Vertex",
        EnumShaderStage::Fragment => "Fragment",
        EnumShaderStage::Geometry => "Geometry",
        EnumShaderStage::Compute => "Compute",
    };
    out.append(label);
    out.append("| (");
    match &s.m_source {
        EnumShaderSource::FromFile(p) => {
            out.append("File : ");
            out.append(p.as_str());
        },
        EnumShaderSource::FromStr(t) => {
            out.append("Literal : ");
            out.append(t.as_str());
        },
    }
    out.append(", ");
    if s.m_is_cached {
        out.append("true");
    } else {
        out.append("false");
    }
    out.append(")");
    assert(out@ =~= before + spec_stage_line(*s));
}

/// A compiled stage must report success (`ShaderSyntaxError` otherwise).
pub fn check_compile_status(status: i32) -> (r: Result<(), EnumShaderError>)
    ensures
        spec_status_ok(status) ==> r is Ok,
        !spec_status_ok(status) ==> r == Err::<(), EnumShaderError>(
            EnumShaderError::OpenGLShaderError(EnumError::ShaderSyntaxError),
        ),
{
    if status as u8 == 0 {
        return Err(EnumShaderError::OpenGLShaderError(EnumError::ShaderSyntaxError));
    }
    Ok(())
}

/// A linked program must report success (`ProgramCreationError` otherwise).
pub fn check_link_status(status: i32) -> (r: Result<(), EnumShaderError>)
    ensures
        spec_status_ok(status) ==> r is Ok,
        !spec_status_ok(status) ==> r == Err::<(), EnumShaderError>(
            EnumShaderError::OpenGLShaderError(EnumError::ProgramCreationError),
        ),
{
    if status as u8 == 0 {
        return Err(EnumShaderError::OpenGLShaderError(EnumError::ProgramCreationError));
    }
    Ok(())
}

/// Binary stages need a binary format (`NoBinaryFormatsError` where the
/// driver supports none).
pub fn check_binary_formats(count: i32) -> (r: Result<(), EnumShaderError>)
    ensures
        count != 0 ==> r is Ok,
        count == 0 ==> r == Err::<(), EnumShaderError>(
            EnumShaderError::OpenGLShaderError(EnumError::NoBinaryFormatsError),
        ),
{
    if count == 0 {
        return Err(EnumShaderError::OpenGLShaderError(EnumError::NoBinaryFormatsError));
    }
    Ok(())
}

/// A binary stage must have loaded (`ShaderBinaryError`), then compiled
/// once specialized (`ShaderBinaryCompilationError`).
pub fn check_binary_stage(loaded: i32, compiled: i32) -> (r: Result<(), EnumShaderError>)
    ensures
        loaded == 0 ==> r == Err::<(), EnumShaderError>(EnumShaderError::ShaderBinaryError),
        loaded != 0 && compiled == 0 ==> r == Err::<(), EnumShaderError>(
            EnumShaderError::OpenGLShaderError(EnumError::ShaderBinaryCompilationError),
        ),
        loaded != 0 && compiled != 0 ==> r is Ok,
{
    if loaded == 0 {
        return Err(EnumShaderError::ShaderBinaryError);
    }
    if compiled == 0 {
        return Err(EnumShaderError::OpenGLShaderError(EnumError::ShaderBinaryCompilationError));
    }
    Ok(())
}

/// The supported binary formats as they are reported (see `spec_formats_text`).
pub fn binary_formats_text(formats: &Vec<i32>) -> (r: String)
    ensures
        r@ == spec_formats_text(formats@),
{
    let mut out = String::from_str("[");
    let mut k: usize = 0;
    while k < formats.len()
        invariant
            0 <= k <= formats@.len(),
            out@ == "["@ + spec_formats_items(formats@, k as int),
        decreases formats.len() - k,
    {
        if k > 0 {
            out.append(", ");
        }
        out.append("0x");
        append_hex(&mut out, formats[k] as u32);
        assert(out@ =~= "["@ + spec_formats_items(formats@, k + 1));
        k = k + 1;
    }
    out.append("]");
    out
}

} // verus!
