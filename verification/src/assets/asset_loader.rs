//! The asset loader: the options models are imported with, and the importer
//! settings they turn into.

use vstd::prelude::*;

use crate::hints::{lemma_set_hint_keeps_unique, lemma_unique_kinds_bound, set_hint_in, spec_with_hint, unique_kinds, TraitHintKind};

verus! {

#[derive(Debug, Copy, Clone, PartialEq, Eq, Structural, Hash)]
pub enum EnumAssetError {
    InvalidPath,
    InvalidFileExtension,
    InvalidRead,
    InvalidShapeData,
}

/// Whether imported vertices are shared through indices.
#[derive(Debug, Copy, Clone, PartialEq, Eq, Structural, Hash)]
pub enum EnumAssetPrimitiveMode {
    Plain,
    Indexed,
}

impl Default for EnumAssetPrimitiveMode {
    fn default() -> (r: Self)
        ensures
            r == EnumAssetPrimitiveMode::Indexed,
    {
        EnumAssetPrimitiveMode::Indexed
    }
}

#[derive(Debug, Copy, Clone, PartialEq, Eq, Structural, Hash)]
pub enum EnumAssetHint {
    VertexDataIs(EnumAssetPrimitiveMode),
    SplitLargeMeshes(Option<usize>),
    GenerateNormals(bool),
    GenerateUvs(bool),
    Triangulate(bool),
    ReduceMeshes(bool),
    OnlyTriangles(bool),
}

/// The payload of an asset hint.
#[derive(Debug, Copy, Clone, PartialEq, Eq, Structural, Hash)]
pub enum EnumAssetHintValue {
    Mode(EnumAssetPrimitiveMode),
    Limit(Option<usize>),
    Flag(bool),
}

pub open spec fn spec_asset_hint_kind(h: EnumAssetHint) -> nat {
    match h {
        EnumAssetHint::VertexDataIs(_) => 0,
        EnumAssetHint::SplitLargeMeshes(_) => 1,
        EnumAssetHint::GenerateNormals(_) => 2,
        EnumAssetHint::GenerateUvs(_) => 3,
        EnumAssetHint::Triangulate(_) => 4,
        EnumAssetHint::ReduceMeshes(_) => 5,
        EnumAssetHint::OnlyTriangles(_) => 6,
    }
}

pub open spec fn spec_asset_hint_value(h: EnumAssetHint) -> EnumAssetHintValue {
    match h {
        EnumAssetHint::VertexDataIs(m) => EnumAssetHintValue::Mode(m),
        EnumAssetHint::SplitLargeMeshes(l) => EnumAssetHintValue::Limit(l),
        EnumAssetHint::GenerateNormals(b) => EnumAssetHintValue::Flag(b),
        EnumAssetHint::GenerateUvs(b) => EnumAssetHintValue::Flag(b),
        EnumAssetHint::Triangulate(b) => EnumAssetHintValue::Flag(b),
        EnumAssetHint::ReduceMeshes(b) => EnumAssetHintValue::Flag(b),
        EnumAssetHint::OnlyTriangles(b) => EnumAssetHintValue::Flag(b),
    }
}

impl TraitHintKind for EnumAssetHint {
    open spec fn spec_kind(&self) -> nat {
        spec_asset_hint_kind(*self)
    }

    fn kind(&self) -> (k: u8) {
        match self {
            EnumAssetHint::VertexDataIs(_) => 0,
            EnumAssetHint::SplitLargeMeshes(_) => 1,
            EnumAssetHint::GenerateNormals(_) => 2,
            EnumAssetHint::GenerateUvs(_) => 3,
            EnumAssetHint::Triangulate(_) => 4,
            EnumAssetHint::ReduceMeshes(_) => 5,
            EnumAssetHint::OnlyTriangles(_) => 6,
        }
    }
}

impl EnumAssetHint {
    /// Whether both hints are of the same kind, whatever their payloads.
    pub fn is(&self, other: &Self) -> (r: bool)
        ensures
            r == (spec_asset_hint_kind(*self) == spec_asset_hint_kind(*other)),
    {
        self.kind() == other.kind()
    }

    pub fn get_value(&self) -> (r: EnumAssetHintValue)
        ensures
            r == spec_asset_hint_value(*self),
    {
        match self {
            EnumAssetHint::VertexDataIs(m) => EnumAssetHintValue::Mode(*m),
            EnumAssetHint::SplitLargeMeshes(l) => EnumAssetHintValue::Limit(*l),
            EnumAssetHint::GenerateNormals(b) => EnumAssetHintValue::Flag(*b),
            EnumAssetHint::GenerateUvs(b) => EnumAssetHintValue::Flag(*b),
            EnumAssetHint::Triangulate(b) => EnumAssetHintValue::Flag(*b),
            EnumAssetHint::ReduceMeshes(b) => EnumAssetHintValue::Flag(*b),
            EnumAssetHint::OnlyTriangles(b) => EnumAssetHintValue::Flag(*b),
        }
    }
}

/// A setting of the model importer.
#[derive(Debug, Copy, Clone, PartialEq, Eq, Structural, Hash)]
pub enum EnumImporterOption {
    FindDegenerates(bool),
    JoinIdenticalVertices(bool),
    /// Whether large meshes are split, and the vertex limit where they are.
    SplitLargeMeshes(bool, Option<i32>),
    /// Whether normals are generated, and whether smoothly.
    GenerateNormals(bool, bool),
    GenUvCoords(bool),
    Triangulate(bool),
    OptimizeMeshes(bool),
    OptimizeGraph(bool),
    /// Whether meshes are sorted by primitive type, lines and points removed.
    SortByPrimitiveType(bool, bool),
    FindInvalidData(bool),
    FixInfacingNormals(bool),
    ImproveCacheLocality(bool),
    MeasureTime(bool),
}

/// The hints a load uses, one of each kind in a fixed order: the last hint of
/// each kind set, or its default (indexed vertices, no splitting, no
/// generated normals or coordinates, triangulated, meshes kept, triangles
/// only).
pub open spec fn spec_resolved_hints(hints: Seq<EnumAssetHint>, n: int) -> Seq<EnumAssetHint>
    decreases n,
{
    if n <= 0 {
        seq![
            EnumAssetHint::VertexDataIs(EnumAssetPrimitiveMode::Indexed),
            EnumAssetHint::SplitLargeMeshes(None),
            EnumAssetHint::GenerateNormals(false),
            EnumAssetHint::GenerateUvs(false),
            EnumAssetHint::Triangulate(true),
            EnumAssetHint::ReduceMeshes(false),
            EnumAssetHint::OnlyTriangles(true),
        ]
    } else {
        let r = spec_resolved_hints(hints, n - 1);
        let h = hints[n - 1];
        r.update(spec_asset_hint_kind(h) as int, h)
    }
}

proof fn lemma_resolved_len(hints: Seq<EnumAssetHint>, n: int)
    ensures
        spec_resolved_hints(hints, n).len() == 7,
    decreases n,
{
    if n > 0 {
        lemma_resolved_len(hints, n - 1);
    }
}

/// The importer settings of one resolved hint.
pub open spec fn spec_hint_options(h: EnumAssetHint) -> Seq<EnumImporterOption> {
    match h {
        EnumAssetHint::VertexDataIs(m) => match m {
            EnumAssetPrimitiveMode::Plain => seq![
                EnumImporterOption::FindDegenerates(true),
                EnumImporterOption::JoinIdenticalVertices(false),
            ],
            EnumAssetPrimitiveMode::Indexed => seq![EnumImporterOption::JoinIdenticalVertices(true)],
        },
        EnumAssetHint::SplitLargeMeshes(limit) => seq![
            EnumImporterOption::SplitLargeMeshes(
                limit is Some,
                match limit {
                    Some(l) => Some(l as i32),
                    None => None,
                },
            ),
        ],
        EnumAssetHint::GenerateNormals(b) => seq![EnumImporterOption::GenerateNormals(b, b)],
        EnumAssetHint::GenerateUvs(b) => seq![EnumImporterOption::GenUvCoords(b)],
        EnumAssetHint::Triangulate(b) => seq![EnumImporterOption::Triangulate(b)],
        EnumAssetHint::ReduceMeshes(b) => seq![
            EnumImporterOption::OptimizeMeshes(b),
            EnumImporterOption::OptimizeGraph(b),
        ],
        EnumAssetHint::OnlyTriangles(b) => seq![EnumImporterOption::SortByPrimitiveType(b, b)],
    }
}

/// The settings of the first `n` hints of `hints`, in order.
pub open spec fn spec_options_of(hints: Seq<EnumAssetHint>, n: int) -> Seq<EnumImporterOption>
    decreases n,
{
    if n <= 0 {
        Seq::empty()
    } else {
        spec_options_of(hints, n - 1) + spec_hint_options(hints[n - 1])
    }
}

/// The settings every load ends with: coordinates generated, invalid data
/// found, inward normals fixed, cache locality improved, time measured.
pub open spec fn spec_fixed_options() -> Seq<EnumImporterOption> {
    seq![
        EnumImporterOption::GenUvCoords(true),
        EnumImporterOption::FindInvalidData(true),
        EnumImporterOption::FixInfacingNormals(true),
        EnumImporterOption::ImproveCacheLocality(true),
        EnumImporterOption::MeasureTime(true),
    ]
}

/// The asset loader and its options.
#[derive(Debug)]
pub struct AssetLoader {
    pub m_hints: Vec<EnumAssetHint>,
}

fn hint_options(h: EnumAssetHint, out: &mut Vec<EnumImporterOption>)
    ensures
        final(out)@ == old(out)@ + spec_hint_options(h),
{
    let ghost before = out@;
    match h {
        EnumAssetHint::VertexDataIs(m) => match m {
            EnumAssetPrimitiveMode::Plain => {
                out.push(EnumImporterOption::FindDegenerates(true));
                out.push(EnumImporterOption::JoinIdenticalVertices(false));
            },
            EnumAssetPrimitiveMode::Indexed => {
                out.push(EnumImporterOption::JoinIdenticalVertices(true));
            },
        },
        EnumAssetHint::SplitLargeMeshes(limit) => {
            let l = match limit {
                Some(l) => Some(l as i32),
                None => None,
            };
            out.push(EnumImporterOption::SplitLargeMeshes(limit.is_some(), l));
        },
        EnumAssetHint::GenerateNormals(b) => {
            out.push(EnumImporterOption::GenerateNormals(b, b));
        },
        EnumAssetHint::GenerateUvs(b) => {
            out.push(EnumImporterOption::GenUvCoords(b));
        },
        EnumAssetHint::Triangulate(b) => {
            out.push(EnumImporterOption::Triangulate(b));
        },
        EnumAssetHint::ReduceMeshes(b) => {
            out.push(EnumImporterOption::OptimizeMeshes(b));
            out.push(EnumImporterOption::OptimizeGraph(b));
        },
        EnumAssetHint::OnlyTriangles(b) => {
            out.push(EnumImporterOption::SortByPrimitiveType(b, b));
        },
    }
    assert(out@ =~= before + spec_hint_options(h));
}

impl AssetLoader {
    pub fn new() -> (r: AssetLoader)
        ensures
            r.m_hints@.len() == 0,
            unique_kinds(r.m_hints@),
    {
        AssetLoader { m_hints: Vec::new() }
    }

    /// Sets `hint`, replacing the hint of the same kind. A list with one
    /// hint of each kind at most keeps so, and then holds at most seven.
    pub fn set_hint(&mut self, hint: EnumAssetHint)
        ensures
            final(self).m_hints@ == spec_with_hint(old(self).m_hints@, hint),
            unique_kinds(old(self).m_hints@) ==> unique_kinds(final(self).m_hints@) && final(self).m_hints@.len()
                <= 7,
    {
        set_hint_in(&mut self.m_hints, hint);
        proof {
            if unique_kinds(old(self).m_hints@) {
                lemma_set_hint_keeps_unique(old(self).m_hints@, hint);
                lemma_unique_kinds_bound(self.m_hints@, 7);
            }
        }
    }

    pub fn reset_hints(&mut self)
        ensures
            final(self).m_hints@.len() == 0,
            unique_kinds(final(self).m_hints@),
    {
        self.m_hints.clear();
    }

    /// The hints a load uses (see `spec_resolved_hints`).
    pub fn resolved_hints(&self) -> (r: Vec<EnumAssetHint>)
        ensures
            r@ == spec_resolved_hints(self.m_hints@, self.m_hints@.len() as int),
            r@.len() == 7,
    {
        proof {
            lemma_resolved_len(self.m_hints@, self.m_hints@.len() as int);
        }
        let mut r: Vec<EnumAssetHint> = Vec::new();
        r.push(EnumAssetHint::VertexDataIs(EnumAssetPrimitiveMode::default()));
        r.push(EnumAssetHint::SplitLargeMeshes(None));
        r.push(EnumAssetHint::GenerateNormals(false));
        r.push(EnumAssetHint::GenerateUvs(false));
        r.push(EnumAssetHint::Triangulate(true));
        r.push(EnumAssetHint::ReduceMeshes(false));
        r.push(EnumAssetHint::OnlyTriangles(true));
        assert(r@ =~= spec_resolved_hints(self.m_hints@, 0));
        let mut i: usize = 0;
        while i < self.m_hints.len()
            invariant
                0 <= i <= self.m_hints.len(),
                r@ == spec_resolved_hints(self.m_hints@, i as int),
                r@.len() == 7,
            decreases self.m_hints.len() - i,
        {
            let h = self.m_hints[i];
            let k = h.kind();
            r.set(k as usize, h);
            i = i + 1;
        }
        r
    }

    /// Whether imported vertices are indexed: the resolved vertex hint says so.
    pub fn is_indexed(&self) -> (r: bool)
        ensures
            r == (spec_resolved_hints(self.m_hints@, self.m_hints@.len() as int)[0]
                == EnumAssetHint::VertexDataIs(EnumAssetPrimitiveMode::Indexed)),
    {
        let resolved = self.resolved_hints();
        match resolved[0] {
            EnumAssetHint::VertexDataIs(EnumAssetPrimitiveMode::Indexed) => true,
            _ => false,
        }
    }

    /// The importer settings of a load: those of the resolved hints, in
    /// order, then the fixed ones.
    pub fn importer_options(&self) -> (r: Vec<EnumImporterOption>)
        ensures
            ({
                let h = spec_resolved_hints(self.m_hints@, self.m_hints@.len() as int);
                r@ == spec_options_of(h, 7) + spec_fixed_options()
            }),
    {
        let resolved = self.resolved_hints();
        let mut out: Vec<EnumImporterOption> = Vec::new();
        let mut i: usize = 0;
        while i < resolved.len()
            invariant
                0 <= i <= resolved.len() == 7,
                out@ == spec_options_of(resolved@, i as int),
            decreases resolved.len() - i,
        {
            hint_options(resolved[i], &mut out);
            i = i + 1;
        }
        let ghost mid = out@;
        out.push(EnumImporterOption::GenUvCoords(true));
        out.push(EnumImporterOption::FindInvalidData(true));
        out.push(EnumImporterOption::FixInfacingNormals(true));
        out.push(EnumImporterOption::ImproveCacheLocality(true));
        out.push(EnumImporterOption::MeasureTime(true));
        assert(out@ =~= mid + spec_fixed_options());
        out
    }
}

} // verus!
