//! Textures: what a loaded image is stored as (its target, format, size,
//! layout and slot), texture arrays that stack images by depth, and the
//! calls that store a texture in the OpenGL context.

use vstd::prelude::*;

use crate::graphics::gl_enums::{
    GL_BGR, GL_BGRA, GL_BGRA_INTEGER, GL_BGR_INTEGER, GL_BYTE, GL_CLAMP_TO_BORDER, GL_FLOAT, GL_INT,
    GL_LINEAR, GL_LINEAR_MIPMAP_NEAREST, GL_PROXY_TEXTURE_1D_ARRAY, GL_PROXY_TEXTURE_2D,
    GL_PROXY_TEXTURE_CUBE_MAP, GL_PROXY_TEXTURE_RECTANGLE, GL_R8, GL_RED, GL_REPEAT, GL_RG,
    GL_RG8, GL_RGB, GL_RGB8, GL_RGBA, GL_RGBA8, GL_SHORT, GL_TEXTURE0, GL_TEXTURE_1D,
    GL_TEXTURE_1D_ARRAY, GL_TEXTURE_2D, GL_TEXTURE_2D_ARRAY, GL_TEXTURE_2D_MULTISAMPLE,
    GL_TEXTURE_2D_MULTISAMPLE_ARRAY, GL_TEXTURE_3D, GL_TEXTURE_CUBE_MAP,
    GL_TEXTURE_CUBE_MAP_ARRAY, GL_TEXTURE_MAG_FILTER, GL_TEXTURE_MIN_FILTER,
    GL_TEXTURE_RECTANGLE, GL_TEXTURE_WRAP_R, GL_TEXTURE_WRAP_S, GL_TEXTURE_WRAP_T,
    GL_UNPACK_ALIGNMENT, GL_UNSIGNED_BYTE, GL_UNSIGNED_BYTE_2_3_3_REV, GL_UNSIGNED_BYTE_3_3_2,
    GL_UNSIGNED_INT, GL_UNSIGNED_INT_10_10_10_2, GL_UNSIGNED_INT_2_10_10_10_REV,
    GL_UNSIGNED_INT_8_8_8_8, GL_UNSIGNED_INT_8_8_8_8_REV, GL_UNSIGNED_SHORT,
    GL_UNSIGNED_SHORT_1_5_5_5_REV, GL_UNSIGNED_SHORT_4_4_4_4, GL_UNSIGNED_SHORT_4_4_4_4_REV,
    GL_UNSIGNED_SHORT_5_5_5_1, GL_UNSIGNED_SHORT_5_6_5, GL_UNSIGNED_SHORT_5_6_5_REV,
};
use crate::graphics::renderer::{EnumOpenGLError, EnumRendererApi};

verus! {

/// Errors raised by OpenGL textures.
#[derive(Debug, Clone, PartialEq, Eq, Structural, Hash)]
pub enum EnumGlTextureError {
    InvalidInternalFormat,
    InternalError(EnumOpenGLError),
}

#[derive(Debug, Copy, Clone, PartialEq, Eq, Structural, Hash)]
pub enum EnumTextureHint {
    BatchTextures(bool),
}

#[derive(Debug, Copy, Clone, PartialEq, Eq, Structural, Hash)]
pub enum EnumTextureTarget {
    Texture1D,
    Texture1DArray,
    ProxyTexture1DArray,
    Texture2D,
    Texture2DMs(u32),
    Texture2DArray,
    Texture2DArrayMs(u32),
    Texture3D,
    Texture3DMs(u32),
    ProxyTexture2D,
    TextureRect,
    ProxyTextureRect,
    TextureCubeMap,
    TextureCubeMapArray,
    ProxyTextureCubeMap,
    DepthStencil,
    ColorAttachment(u32),
}

impl Default for EnumTextureTarget {
    fn default() -> (r: Self)
        ensures
            r == EnumTextureTarget::Texture2D,
    {
        EnumTextureTarget::Texture2D
    }
}

#[derive(Debug, Copy, Clone, PartialEq, Eq, Structural, Hash)]
pub enum EnumTextureFormat {
    Red,
    Rg,
    Rgb,
    Bgr,
    Rgba,
    Bgra,
}

impl Default for EnumTextureFormat {
    fn default() -> (r: Self)
        ensures
            r == EnumTextureFormat::Rgb,
    {
        EnumTextureFormat::Rgb
    }
}

#[derive(Debug, Copy, Clone, PartialEq, Eq, Structural, Hash)]
pub enum EnumCubeMapFace {
    Left,
    Right,
    Top,
    Bottom,
    Front,
    Back,
}

impl Default for EnumCubeMapFace {
    fn default() -> (r: Self)
        ensures
            r == EnumCubeMapFace::Back,
    {
        EnumCubeMapFace::Back
    }
}

#[derive(Debug, Copy, Clone, PartialEq, Eq, Structural, Hash)]
pub enum EnumTextureDataAlignment {
    UnsignedByte,
    UnsignedByte233Reverse,
    UnsignedByte332,
    Byte,
    UnsignedShort,
    UnsignedShort565,
    UnsignedShort565Reverse,
    UnsignedShort4444,
    UnsignedShort4444Reverse,
    UnsignedShort5551,
    UnsignedShort1555Reverse,
    Short,
    UnsignedInt,
    UnsignedInt8888,
    UnsignedInt8888Reverse,
    UnsignedInt10_10_10_2,
    UnsignedInt2_10_10_10Reverse,
    Int,
    Float,
}

impl Default for EnumTextureDataAlignment {
    fn default() -> (r: Self)
        ensures
            r == EnumTextureDataAlignment::UnsignedByte,
    {
        EnumTextureDataAlignment::UnsignedByte
    }
}

/// What a texture is stored as: target, mipmap level, format, dimensions,
/// data layout and slot; or the layers of an array; or the faces of a cube map.
#[derive(Debug)]
pub enum EnumTextureInfo {
    Texture1D(EnumTextureTarget, u32, EnumTextureFormat, u32, EnumTextureDataAlignment, u16),
    Texture2D(EnumTextureTarget, u32, EnumTextureFormat, u32, u32, EnumTextureDataAlignment, u16),
    Texture3D(EnumTextureTarget, u32, EnumTextureFormat, u32, u32, u32, EnumTextureDataAlignment, u16),
    TextureArray(Vec<(EnumTextureInfo, Vec<u8>)>),
    CubeMap([(EnumCubeMapFace, u32, EnumTextureFormat, u32, u32, EnumTextureDataAlignment, u16); 6]),
}

pub open spec fn spec_target(i: EnumTextureInfo) -> EnumTextureTarget {
    match i {
        EnumTextureInfo::Texture1D(t, _, _, _, _, _) => t,
        EnumTextureInfo::Texture2D(t, _, _, _, _, _, _) => t,
        EnumTextureInfo::Texture3D(t, _, _, _, _, _, _, _) => t,
        EnumTextureInfo::TextureArray(_) => EnumTextureTarget::Texture2DArray,
        EnumTextureInfo::CubeMap(_) => EnumTextureTarget::TextureCubeMap,
    }
}

/// The format: that of the first layer or face for arrays and cube maps.
pub open spec fn spec_format(i: EnumTextureInfo) -> EnumTextureFormat
    decreases i,
{
    match i {
        EnumTextureInfo::Texture1D(_, _, f, _, _, _) => f,
        EnumTextureInfo::Texture2D(_, _, f, _, _, _, _) => f,
        EnumTextureInfo::Texture3D(_, _, f, _, _, _, _, _) => f,
        EnumTextureInfo::TextureArray(v) => if v@.len() > 0 {
            spec_format(v@[0].0)
        } else {
            EnumTextureFormat::Rgb
        },
        EnumTextureInfo::CubeMap(faces) => faces@[0].2,
    }
}

pub open spec fn spec_mipmap_level(i: EnumTextureInfo) -> u32
    decreases i,
{
    match i {
        EnumTextureInfo::Texture1D(_, m, _, _, _, _) => m,
        EnumTextureInfo::Texture2D(_, m, _, _, _, _, _) => m,
        EnumTextureInfo::Texture3D(_, m, _, _, _, _, _, _) => m,
        EnumTextureInfo::TextureArray(v) => if v@.len() > 0 {
            spec_mipmap_level(v@[0].0)
        } else {
            0
        },
        EnumTextureInfo::CubeMap(faces) => faces@[0].1,
    }
}

/// The width: that of the last layer or face for arrays and cube maps.
pub open spec fn spec_width(i: EnumTextureInfo) -> usize
    decreases i,
{
    match i {
        EnumTextureInfo::Texture1D(_, _, _, w, _, _) => w as usize,
        EnumTextureInfo::Texture2D(_, _, _, w, _, _, _) => w as usize,
        EnumTextureInfo::Texture3D(_, _, _, w, _, _, _, _) => w as usize,
        EnumTextureInfo::TextureArray(v) => if v@.len() > 0 {
            spec_width(v@.last().0)
        } else {
            0
        },
        EnumTextureInfo::CubeMap(faces) => faces@[5].3 as usize,
    }
}

pub open spec fn spec_height(i: EnumTextureInfo) -> usize
    decreases i,
{
    match i {
        EnumTextureInfo::Texture1D(_, _, _, _, _, _) => 0,
        EnumTextureInfo::Texture2D(_, _, _, _, h, _, _) => h as usize,
        EnumTextureInfo::Texture3D(_, _, _, _, h, _, _, _) => h as usize,
        EnumTextureInfo::TextureArray(v) => if v@.len() > 0 {
            spec_height(v@.last().0)
        } else {
            0
        },
        EnumTextureInfo::CubeMap(faces) => faces@[5].4 as usize,
    }
}

/// The depth: a 3D texture's (as 16 bits), the last layer's for an array.
pub open spec fn spec_depth(i: EnumTextureInfo) -> u16
    decreases i,
{
    match i {
        EnumTextureInfo::Texture3D(_, _, _, _, _, d, _, _) => d as u16,
        EnumTextureInfo::TextureArray(v) => if v@.len() > 0 {
            spec_depth(v@.last().0)
        } else {
            0
        },
        _ => 0,
    }
}

pub open spec fn spec_data_type(i: EnumTextureInfo) -> EnumTextureDataAlignment
    decreases i,
{
    match i {
        EnumTextureInfo::Texture1D(_, _, _, _, d, _) => d,
        EnumTextureInfo::Texture2D(_, _, _, _, _, d, _) => d,
        EnumTextureInfo::Texture3D(_, _, _, _, _, _, d, _) => d,
        EnumTextureInfo::TextureArray(v) => if v@.len() > 0 {
            spec_data_type(v@[0].0)
        } else {
            EnumTextureDataAlignment::UnsignedByte
        },
        EnumTextureInfo::CubeMap(faces) => faces@[0].5,
    }
}

/// The slot: the first layer's or face's for arrays and cube maps (5 for an
/// empty array).
pub open spec fn spec_slot(i: EnumTextureInfo) -> u16
    decreases i,
{
    match i {
        EnumTextureInfo::Texture1D(_, _, _, _, _, s) => s,
        EnumTextureInfo::Texture2D(_, _, _, _, _, _, s) => s,
        EnumTextureInfo::Texture3D(_, _, _, _, _, _, _, s) => s,
        EnumTextureInfo::TextureArray(v) => if v@.len() > 0 {
            spec_slot(v@[0].0)
        } else {
            5
        },
        EnumTextureInfo::CubeMap(faces) => faces@[0].6,
    }
}

impl EnumTextureInfo {
    /// A 2D texture of the default target, format and layout, with nothing in
    /// it, in slot 6.
    pub fn default() -> (r: EnumTextureInfo)
        ensures
            r == EnumTextureInfo::Texture2D(
                EnumTextureTarget::Texture2D,
                0,
                EnumTextureFormat::Rgb,
                0,
                0,
                EnumTextureDataAlignment::UnsignedByte,
                6,
            ),
    {
        EnumTextureInfo::Texture2D(
            EnumTextureTarget::default(),
            0,
            EnumTextureFormat::default(),
            0,
            0,
            EnumTextureDataAlignment::default(),
            6,
        )
    }

    pub fn get_target(&self) -> (r: EnumTextureTarget)
        ensures
            r == spec_target(*self),
    {
        match self {
            EnumTextureInfo::Texture1D(t, _, _, _, _, _) => *t,
            EnumTextureInfo::Texture2D(t, _, _, _, _, _, _) => *t,
            EnumTextureInfo::Texture3D(t, _, _, _, _, _, _, _) => *t,
            EnumTextureInfo::TextureArray(_) => EnumTextureTarget::Texture2DArray,
            EnumTextureInfo::CubeMap(_) => EnumTextureTarget::TextureCubeMap,
        }
    }

    pub fn get_format(&self) -> (r: EnumTextureFormat)
        ensures
            r == spec_format(*self),
        decreases *self,
    {
        match self {
            EnumTextureInfo::Texture1D(_, _, f, _, _, _) => *f,
            EnumTextureInfo::Texture2D(_, _, f, _, _, _, _) => *f,
            EnumTextureInfo::Texture3D(_, _, f, _, _, _, _, _) => *f,
            EnumTextureInfo::TextureArray(v) => {
                if v.len() > 0 {
                    v[0].0.get_format()
                } else {
                    EnumTextureFormat::default()
                }
            },
            EnumTextureInfo::CubeMap(faces) => faces[0].2,
        }
    }

    pub fn get_mipmap_level(&self) -> (r: u32)
        ensures
            r == spec_mipmap_level(*self),
        decreases *self,
    {
        match self {
            EnumTextureInfo::Texture1D(_, m, _, _, _, _) => *m,
            EnumTextureInfo::Texture2D(_, m, _, _, _, _, _) => *m,
            EnumTextureInfo::Texture3D(_, m, _, _, _, _, _, _) => *m,
            EnumTextureInfo::TextureArray(v) => {
                if v.len() > 0 {
                    v[0].0.get_mipmap_level()
                } else {
                    0
                }
            },
            EnumTextureInfo::CubeMap(faces) => faces[0].1,
        }
    }

    pub fn get_width(&self) -> (r: usize)
        ensures
            r == spec_width(*self),
        decreases *self,
    {
        match self {
            EnumTextureInfo::Texture1D(_, _, _, w, _, _) => *w as usize,
            EnumTextureInfo::Texture2D(_, _, _, w, _, _, _) => *w as usize,
            EnumTextureInfo::Texture3D(_, _, _, w, _, _, _, _) => *w as usize,
            EnumTextureInfo::TextureArray(v) => {
                if v.len() > 0 {
                    v[v.len() - 1].0.get_width()
                } else {
                    0
                }
            },
            EnumTextureInfo::CubeMap(faces) => faces[5].3 as usize,
        }
    }

    pub fn get_height(&self) -> (r: usize)
        ensures
            r == spec_height(*self),
        decreases *self,
    {
        match self {
            EnumTextureInfo::Texture1D(_, _, _, _, _, _) => 0,
            EnumTextureInfo::Texture2D(_, _, _, _, h, _, _) => *h as usize,
            EnumTextureInfo::Texture3D(_, _, _, _, h, _, _, _) => *h as usize,
            EnumTextureInfo::TextureArray(v) => {
                if v.len() > 0 {
                    v[v.len() - 1].0.get_height()
                } else {
                    0
                }
            },
            EnumTextureInfo::CubeMap(faces) => faces[5].4 as usize,
        }
    }

    pub fn get_depth(&self) -> (r: u16)
        ensures
            r == spec_depth(*self),
        decreases *self,
    {
        match self {
            EnumTextureInfo::Texture3D(_, _, _, _, _, d, _, _) => *d as u16,
            EnumTextureInfo::TextureArray(v) => {
                if v.len() > 0 {
                    v[v.len() - 1].0.get_depth()
                } else {
                    0
                }
            },
            _ => 0,
        }
    }

    pub fn get_data_type(&self) -> (r: EnumTextureDataAlignment)
        ensures
            r == spec_data_type(*self),
        decreases *self,
    {
        match self {
            EnumTextureInfo::Texture1D(_, _, _, _, d, _) => *d,
            EnumTextureInfo::Texture2D(_, _, _, _, _, d, _) => *d,
            EnumTextureInfo::Texture3D(_, _, _, _, _, _, d, _) => *d,
            EnumTextureInfo::TextureArray(v) => {
                if v.len() > 0 {
                    v[0].0.get_data_type()
                } else {
                    EnumTextureDataAlignment::default()
                }
            },
            EnumTextureInfo::CubeMap(faces) => faces[0].5,
        }
    }

    pub fn get_slot(&self) -> (r: u16)
        ensures
            r == spec_slot(*self),
        decreases *self,
    {
        match self {
            EnumTextureInfo::Texture1D(_, _, _, _, _, s) => *s,
            EnumTextureInfo::Texture2D(_, _, _, _, _, _, s) => *s,
            EnumTextureInfo::Texture3D(_, _, _, _, _, _, _, s) => *s,
            EnumTextureInfo::TextureArray(v) => {
                if v.len() > 0 {
                    v[0].0.get_slot()
                } else {
                    5
                }
            },
            EnumTextureInfo::CubeMap(faces) => faces[0].6,
        }
    }
}

#[derive(Debug, Copy, Clone, PartialEq, Eq, Hash)]
pub enum EnumAtlasTextureHint {
    TextureFormat(EnumTextureFormat),
    AtlasDimensions((usize, usize)),
    OptimizeMemory(bool),
}

#[derive(Debug, Clone, PartialEq, Eq)]
pub enum EnumTextureError {
    InvalidSize,
    FileError(String),
    InvalidMipMap,
    InvalidFormat,
    InvalidInternalFormat,
}

#[derive(Debug, Clone, PartialEq, Eq)]
pub enum EnumTextureLoaderError {
    FileError(String),
    InvalidPath(String),
    InvalidSize,
    InvalidFormat,
}

#[derive(Debug, Copy, Clone, PartialEq, Eq, Structural, Hash)]
pub enum EnumTextureState {
    Created,
    Sent,
    Deleted,
}

/// A loaded image: what it is stored as, its dimensions and channel count,
/// and its pixels.
#[derive(Debug)]
pub struct TextureInfo {
    pub m_type: EnumTextureInfo,
    pub m_width: usize,
    pub m_height: usize,
    pub m_depth: usize,
    pub m_data: Vec<u8>,
}

/// Layer `k` of an array whose first layer lies at depth `first`: the image
/// stored as a 3D texture at depth `first + k`.
pub open spec fn spec_layer(t: TextureInfo, depth: int) -> EnumTextureInfo {
    EnumTextureInfo::Texture3D(
        spec_target(t.m_type),
        spec_mipmap_level(t.m_type),
        spec_format(t.m_type),
        spec_width(t.m_type) as u32,
        spec_height(t.m_type) as u32,
        depth as u32,
        spec_data_type(t.m_type),
        spec_slot(t.m_type),
    )
}

/// Images stacked into a texture array, each at its depth.
pub struct TextureArray {
    pub m_textures: Vec<TextureInfo>,
    pub m_max_depth: u16,
    pub m_api: EnumRendererApi,
}

/// Whether the images of `stacked` are `images` stored as layers from depth
/// `first` on, in order, with their pixels and dimensions.
pub open spec fn spec_stacked(stacked: Seq<TextureInfo>, images: Seq<TextureInfo>, first: int) -> bool {
    &&& stacked.len() == images.len()
    &&& forall|k: int|
        0 <= k < images.len() ==> #[trigger] stacked[k].m_type == spec_layer(images[k], first + k)
            && stacked[k].m_data@ == images[k].m_data@ && stacked[k].m_width == images[k].m_width
            && stacked[k].m_height == images[k].m_height && stacked[k].m_depth == images[k].m_depth
}

fn stack_layers(textures_info: Vec<TextureInfo>, first: u16) -> (r: Vec<TextureInfo>)
    requires
        first + textures_info@.len() <= u16::MAX,
    ensures
        spec_stacked(r@, textures_info@, first as int),
{
    let ghost images = textures_info@;
    let mut rest = textures_info;
    let mut out: Vec<TextureInfo> = Vec::new();
    let mut depth: u16 = first;
    while rest.len() > 0
        invariant
            rest@ == images.skip(out@.len() as int),
            out@.len() <= images.len(),
            depth == first + out@.len(),
            first + images.len() <= u16::MAX,
            spec_stacked(out@, images.take(out@.len() as int), first as int),
        decreases rest.len(),
    {
        let t = rest.remove(0);
        assert(t == images[out@.len() as int]);
        assert(rest@ =~= images.skip(out@.len() + 1int));
        let info = EnumTextureInfo::Texture3D(
            t.m_type.get_target(),
            t.m_type.get_mipmap_level(),
            t.m_type.get_format(),
            t.m_type.get_width() as u32,
            t.m_type.get_height() as u32,
            depth as u32,
            t.m_type.get_data_type(),
            t.m_type.get_slot(),
        );
        let ghost k = out@.len() as int;
        out.push(TextureInfo { m_type: info, m_width: t.m_width, m_height: t.m_height, m_depth: t.m_depth, m_data: t.m_data });
        proof {
            assert(images.take(k + 1) =~= images.take(k).push(images[k]));
        }
        depth = depth + 1;
    }
    assert(out@.len() == images.len());
    assert(images.take(out@.len() as int) =~= images);
    out
}

/// Whether each layer of `a` lies at its own position as depth, and the
/// array's depth is its number of layers.
pub open spec fn spec_layers_at_depths(a: TextureArray) -> bool {
    &&& a.m_max_depth == a.m_textures@.len()
    &&& forall|k: int|
        0 <= k < a.m_textures@.len() ==> (#[trigger] a.m_textures@[k]).m_type is Texture3D && spec_depth(
            a.m_textures@[k].m_type,
        ) == k
}

impl TextureArray {
    /// Stacks `textures_info` in order, the `k`-th at depth `k`.
    pub fn new(api_chosen: EnumRendererApi, textures_info: Vec<TextureInfo>) -> (r: TextureArray)
        requires
            textures_info@.len() <= u16::MAX,
        ensures
            spec_stacked(r.m_textures@, textures_info@, 0),
            r.m_max_depth == textures_info@.len(),
            r.m_api == api_chosen,
            spec_layers_at_depths(r),
    {
        let n = textures_info.len();
        let stacked = stack_layers(textures_info, 0);
        let r = TextureArray { m_textures: stacked, m_max_depth: n as u16, m_api: api_chosen };
        assert forall|k: int| 0 <= k < r.m_textures@.len() implies (#[trigger] r.m_textures@[k]).m_type is Texture3D
            && spec_depth(r.m_textures@[k].m_type) == k by {
            assert(r.m_textures@[k].m_type == spec_layer(textures_info@[k], k));
        }
        r
    }

    /// The depth the next image would take: the number of layers.
    pub fn get_current_depth(&self) -> (r: u16)
        ensures
            r == self.m_max_depth,
    {
        self.m_max_depth
    }

    /// Stacks `textures_info` on top, from the current depth on.
    pub fn append(&mut self, textures_info: Vec<TextureInfo>)
        requires
            old(self).m_max_depth + textures_info@.len() <= u16::MAX,
        ensures
            final(self).m_textures@.len() == old(self).m_textures@.len() + textures_info@.len(),
            final(self).m_textures@.take(old(self).m_textures@.len() as int) == old(self).m_textures@,
            spec_stacked(
                final(self).m_textures@.skip(old(self).m_textures@.len() as int),
                textures_info@,
                old(self).m_max_depth as int,
            ),
            final(self).m_max_depth == old(self).m_max_depth + textures_info@.len(),
            final(self).m_api == old(self).m_api,
            spec_layers_at_depths(*old(self)) ==> spec_layers_at_depths(*final(self)),
    {
        let n = textures_info.len();
        let mut stacked = stack_layers(textures_info, self.m_max_depth);
        let ghost before = self.m_textures@;
        let ghost added = stacked@;
        self.m_textures.append(&mut stacked);
        assert(self.m_textures@.take(before.len() as int) =~= before);
        assert(self.m_textures@.skip(before.len() as int) =~= added);
        self.m_max_depth = self.m_max_depth + n as u16;
        proof {
            if spec_layers_at_depths(*old(self)) {
                let m = before.len() as int;
                assert forall|k: int| 0 <= k < self.m_textures@.len() implies (
                #[trigger] self.m_textures@[k]).m_type is Texture3D && spec_depth(self.m_textures@[k].m_type)
                    == k by {
                    if k < m {
                        assert(self.m_textures@[k] == self.m_textures@.take(m)[k]);
                        assert(before[k] == old(self).m_textures@[k]);
                    } else {
                        assert(self.m_textures@[k] == self.m_textures@.skip(m)[k - m]);
                        assert(added[k - m].m_type == spec_layer(textures_info@[k - m], m + (k - m)));
                    }
                }
            }
        }
    }

    /// The array as one texture: its layers and pixels, with the first
    /// layer's width and height and the array's depth.
    pub fn as_texture_info(&self) -> (r: TextureInfo)
        requires
            self.m_textures@.len() > 0,
            forall|k: int|
                0 <= k < self.m_textures@.len() ==> !((#[trigger] self.m_textures@[k]).m_type is TextureArray),
        ensures
            r.m_width == spec_width(self.m_textures@[0].m_type),
            r.m_height == spec_height(self.m_textures@[0].m_type),
            r.m_depth == self.m_max_depth,
            r.m_data@.len() == 0,
            r.m_type matches EnumTextureInfo::TextureArray(v) && v@.len() == self.m_textures@.len()
                && forall|k: int|
                0 <= k < v@.len() ==> (#[trigger] v@[k]).0 == self.m_textures@[k].m_type && v@[k].1@
                    == self.m_textures@[k].m_data@,
    {
        let mut converted: Vec<(EnumTextureInfo, Vec<u8>)> = Vec::new();
        let width = self.m_textures[0].m_type.get_width();
        let height = self.m_textures[0].m_type.get_height();
        let mut k: usize = 0;
        while k < self.m_textures.len()
            invariant
                0 <= k <= self.m_textures.len(),
                converted@.len() == k,
                forall|m: int|
                    0 <= m < self.m_textures@.len() ==> !((#[trigger] self.m_textures@[m]).m_type is TextureArray),
                forall|m: int|
                    0 <= m < k ==> (#[trigger] converted@[m]).0 == self.m_textures@[m].m_type
                        && converted@[m].1@ == self.m_textures@[m].m_data@,
            decreases self.m_textures.len() - k,
        {
            let t = &self.m_textures[k];
            converted.push((copy_info(&t.m_type), copy_bytes(&t.m_data)));
            k = k + 1;
        }
        TextureInfo {
            m_type: EnumTextureInfo::TextureArray(converted),
            m_width: width,
            m_height: height,
            m_depth: self.m_max_depth as usize,
            m_data: Vec::new(),
        }
    }
}

/// A copy of bytes `b`.
pub fn copy_bytes(b: &Vec<u8>) -> (r: Vec<u8>)
    ensures
        r@ == b@,
{
    let mut out: Vec<u8> = Vec::new();
    let mut k: usize = 0;
    while k < b.len()
        invariant
            0 <= k <= b.len(),
            out@ == b@.take(k as int),
        decreases b.len() - k,
    {
        out.push(b[k]);
        k = k + 1;
        assert(out@ =~= b@.take(k as int));
    }
    assert(b@.take(b@.len() as int) =~= b@);
    out
}

/// A copy of texture description `i`, one that is not an array.
pub fn copy_info(i: &EnumTextureInfo) -> (r: EnumTextureInfo)
    requires
        !(*i is TextureArray),
    ensures
        r == *i,
{
    match i {
        EnumTextureInfo::Texture1D(a, b, c, d, e, f) => EnumTextureInfo::Texture1D(*a, *b, *c, *d, *e, *f),
        EnumTextureInfo::Texture2D(a, b, c, d, e, f, g) => EnumTextureInfo::Texture2D(
            *a,
            *b,
            *c,
            *d,
            *e,
            *f,
            *g,
        ),
        EnumTextureInfo::Texture3D(a, b, c, d, e, f, g, h) => EnumTextureInfo::Texture3D(
            *a,
            *b,
            *c,
            *d,
            *e,
            *f,
            *g,
            *h,
        ),
        EnumTextureInfo::CubeMap(faces) => EnumTextureInfo::CubeMap(*faces),
        EnumTextureInfo::TextureArray(_) => EnumTextureInfo::default(),
    }
}

/// Where the pixels of an upload come from.
#[derive(Debug, Copy, Clone, PartialEq, Eq, Structural, Hash)]
pub enum EnumTexData {
    /// The texture's own pixels.
    Image,
    /// The pixels of layer `usize` of a texture array.
    Layer(usize),
    /// No pixels: the storage is only reserved.
    Empty,
}

/// An API call that stores or releases a texture.
#[derive(Debug, Copy, Clone, PartialEq, Eq, Structural, Hash)]
pub enum GlTextureCall {
    ActiveTexture(u32),
    BindTexture(u32, u32),
    TexParameteri(u32, u32, i32),
    PixelStorei(u32, i32),
    TexImage2DMultisample(u32, i32, u32, i32, i32),
    TexImage2D(u32, i32, i32, i32, i32, u32, u32, EnumTexData),
    TexImage3DMultisample(u32, i32, u32, i32, i32, i32),
    TexImage3D(u32, i32, i32, i32, i32, i32, u32, u32, EnumTexData),
    TexSubImage2D(u32, i32, i32, i32, u32, u32),
    TexSubImage3D(u32, i32, i32, i32, i32, u32, u32, EnumTexData),
    GenerateMipmap(u32),
    DeleteTexture(u32),
}

/// The API target of a texture target, and its sample count where it is
/// multisampled.
pub open spec fn spec_internal_target(t: EnumTextureTarget) -> (u32, Option<u32>) {
    match t {
        EnumTextureTarget::Texture1D => (GL_TEXTURE_1D, None),
        EnumTextureTarget::Texture1DArray => (GL_TEXTURE_1D_ARRAY, None),
        EnumTextureTarget::ProxyTexture1DArray => (GL_PROXY_TEXTURE_1D_ARRAY, None),
        EnumTextureTarget::Texture2D => (GL_TEXTURE_2D, None),
        EnumTextureTarget::ProxyTexture2D => (GL_PROXY_TEXTURE_2D, None),
        EnumTextureTarget::TextureRect => (GL_TEXTURE_RECTANGLE, None),
        EnumTextureTarget::ProxyTextureRect => (GL_PROXY_TEXTURE_RECTANGLE, None),
        EnumTextureTarget::TextureCubeMap => (GL_TEXTURE_CUBE_MAP, None),
        EnumTextureTarget::ProxyTextureCubeMap => (GL_PROXY_TEXTURE_CUBE_MAP, None),
        EnumTextureTarget::DepthStencil => (GL_TEXTURE_2D_MULTISAMPLE, None),
        EnumTextureTarget::ColorAttachment(_) => (GL_TEXTURE_2D_MULTISAMPLE, None),
        EnumTextureTarget::Texture2DMs(s) => (GL_TEXTURE_2D_MULTISAMPLE, Some(s)),
        EnumTextureTarget::Texture2DArray => (GL_TEXTURE_2D_ARRAY, None),
        EnumTextureTarget::Texture2DArrayMs(s) => (GL_TEXTURE_2D_MULTISAMPLE_ARRAY, Some(s)),
        EnumTextureTarget::Texture3D => (GL_TEXTURE_3D, None),
        EnumTextureTarget::Texture3DMs(s) => (GL_TEXTURE_3D, Some(s)),
        EnumTextureTarget::TextureCubeMapArray => (GL_TEXTURE_CUBE_MAP_ARRAY, None),
    }
}

pub fn convert_target_to_internal_target(t: EnumTextureTarget) -> (r: (u32, Option<u32>))
    ensures
        r == spec_internal_target(t),
{
    match t {
        EnumTextureTarget::Texture1D => (GL_TEXTURE_1D, None),
        EnumTextureTarget::Texture1DArray => (GL_TEXTURE_1D_ARRAY, None),
        EnumTextureTarget::ProxyTexture1DArray => (GL_PROXY_TEXTURE_1D_ARRAY, None),
        EnumTextureTarget::Texture2D => (GL_TEXTURE_2D, None),
        EnumTextureTarget::ProxyTexture2D => (GL_PROXY_TEXTURE_2D, None),
        EnumTextureTarget::TextureRect => (GL_TEXTURE_RECTANGLE, None),
        EnumTextureTarget::ProxyTextureRect => (GL_PROXY_TEXTURE_RECTANGLE, None),
        EnumTextureTarget::TextureCubeMap => (GL_TEXTURE_CUBE_MAP, None),
        EnumTextureTarget::ProxyTextureCubeMap => (GL_PROXY_TEXTURE_CUBE_MAP, None),
        EnumTextureTarget::DepthStencil => (GL_TEXTURE_2D_MULTISAMPLE, None),
        EnumTextureTarget::ColorAttachment(_) => (GL_TEXTURE_2D_MULTISAMPLE, None),
        EnumTextureTarget::Texture2DMs(s) => (GL_TEXTURE_2D_MULTISAMPLE, Some(s)),
        EnumTextureTarget::Texture2DArray => (GL_TEXTURE_2D_ARRAY, None),
        EnumTextureTarget::Texture2DArrayMs(s) => (GL_TEXTURE_2D_MULTISAMPLE_ARRAY, Some(s)),
        EnumTextureTarget::Texture3D => (GL_TEXTURE_3D, None),
        EnumTextureTarget::Texture3DMs(s) => (GL_TEXTURE_3D, Some(s)),
        EnumTextureTarget::TextureCubeMapArray => (GL_TEXTURE_CUBE_MAP_ARRAY, None),
    }
}

/// The API pixel format and internal format of a texture format.
pub open spec fn spec_internal_format(f: EnumTextureFormat) -> (u32, u32) {
    match f {
        EnumTextureFormat::Red => (GL_RED, GL_R8),
        EnumTextureFormat::Rg => (GL_RG, GL_RG8),
        EnumTextureFormat::Rgb => (GL_RGB, GL_RGB8),
        EnumTextureFormat::Bgr => (GL_BGR, GL_BGR_INTEGER),
        EnumTextureFormat::Rgba => (GL_RGBA, GL_RGBA8),
        EnumTextureFormat::Bgra => (GL_BGRA_INTEGER, GL_BGRA),
    }
}

pub fn convert_format_to_internal_format(f: EnumTextureFormat) -> (r: (u32, u32))
    ensures
        r == spec_internal_format(f),
{
    match f {
        EnumTextureFormat::Red => (GL_RED, GL_R8),
        EnumTextureFormat::Rg => (GL_RG, GL_RG8),
        EnumTextureFormat::Rgb => (GL_RGB, GL_RGB8),
        EnumTextureFormat::Bgr => (GL_BGR, GL_BGR_INTEGER),
        EnumTextureFormat::Rgba => (GL_RGBA, GL_RGBA8),
        EnumTextureFormat::Bgra => (GL_BGRA_INTEGER, GL_BGRA),
    }
}

/// The API pixel type of a data layout.
pub open spec fn spec_internal_type(d: EnumTextureDataAlignment) -> u32 {
    match d {
        EnumTextureDataAlignment::UnsignedByte => GL_UNSIGNED_BYTE,
        EnumTextureDataAlignment::UnsignedByte233Reverse => GL_UNSIGNED_BYTE_2_3_3_REV,
        EnumTextureDataAlignment::UnsignedByte332 => GL_UNSIGNED_BYTE_3_3_2,
        EnumTextureDataAlignment::Byte => GL_BYTE,
        EnumTextureDataAlignment::UnsignedShort => GL_UNSIGNED_SHORT,
        EnumTextureDataAlignment::UnsignedShort565 => GL_UNSIGNED_SHORT_5_6_5,
        EnumTextureDataAlignment::UnsignedShort565Reverse => GL_UNSIGNED_SHORT_5_6_5_REV,
        EnumTextureDataAlignment::UnsignedShort4444 => GL_UNSIGNED_SHORT_4_4_4_4,
        EnumTextureDataAlignment::UnsignedShort4444Reverse => GL_UNSIGNED_SHORT_4_4_4_4_REV,
        EnumTextureDataAlignment::UnsignedShort5551 => GL_UNSIGNED_SHORT_5_5_5_1,
        EnumTextureDataAlignment::UnsignedShort1555Reverse => GL_UNSIGNED_SHORT_1_5_5_5_REV,
        EnumTextureDataAlignment::Short => GL_SHORT,
        EnumTextureDataAlignment::UnsignedInt => GL_UNSIGNED_INT,
        EnumTextureDataAlignment::UnsignedInt8888 => GL_UNSIGNED_INT_8_8_8_8,
        EnumTextureDataAlignment::UnsignedInt8888Reverse => GL_UNSIGNED_INT_8_8_8_8_REV,
        EnumTextureDataAlignment::UnsignedInt10_10_10_2 => GL_UNSIGNED_INT_10_10_10_2,
        EnumTextureDataAlignment::UnsignedInt2_10_10_10Reverse => GL_UNSIGNED_INT_2_10_10_10_REV,
        EnumTextureDataAlignment::Int => GL_INT,
        EnumTextureDataAlignment::Float => GL_FLOAT,
    }
}

pub fn convert_type_to_internal_type(d: EnumTextureDataAlignment) -> (r: u32)
    ensures
        r == spec_internal_type(d),
{
    match d {
        EnumTextureDataAlignment::UnsignedByte => GL_UNSIGNED_BYTE,
        EnumTextureDataAlignment::UnsignedByte233Reverse => GL_UNSIGNED_BYTE_2_3_3_REV,
        EnumTextureDataAlignment::UnsignedByte332 => GL_UNSIGNED_BYTE_3_3_2,
        EnumTextureDataAlignment::Byte => GL_BYTE,
        EnumTextureDataAlignment::UnsignedShort => GL_UNSIGNED_SHORT,
        EnumTextureDataAlignment::UnsignedShort565 => GL_UNSIGNED_SHORT_5_6_5,
        EnumTextureDataAlignment::UnsignedShort565Reverse => GL_UNSIGNED_SHORT_5_6_5_REV,
        EnumTextureDataAlignment::UnsignedShort4444 => GL_UNSIGNED_SHORT_4_4_4_4,
        EnumTextureDataAlignment::UnsignedShort4444Reverse => GL_UNSIGNED_SHORT_4_4_4_4_REV,
        EnumTextureDataAlignment::UnsignedShort5551 => GL_UNSIGNED_SHORT_5_5_5_1,
        EnumTextureDataAlignment::UnsignedShort1555Reverse => GL_UNSIGNED_SHORT_1_5_5_5_REV,
        EnumTextureDataAlignment::Short => GL_SHORT,
        EnumTextureDataAlignment::UnsignedInt => GL_UNSIGNED_INT,
        EnumTextureDataAlignment::UnsignedInt8888 => GL_UNSIGNED_INT_8_8_8_8,
        EnumTextureDataAlignment::UnsignedInt8888Reverse => GL_UNSIGNED_INT_8_8_8_8_REV,
        EnumTextureDataAlignment::UnsignedInt10_10_10_2 => GL_UNSIGNED_INT_10_10_10_2,
        EnumTextureDataAlignment::UnsignedInt2_10_10_10Reverse => GL_UNSIGNED_INT_2_10_10_10_REV,
        EnumTextureDataAlignment::Int => GL_INT,
        EnumTextureDataAlignment::Float => GL_FLOAT,
    }
}

/// A texture as the OpenGL back end stores it.
#[derive(Debug)]
pub struct GlTexture {
    pub m_id: u32,
    pub m_slot: u16,
    pub m_texture: TextureInfo,
    pub m_level: u32,
    pub m_ms: Option<u32>,
    pub m_format: u32,
    pub m_internal_target: u32,
    pub m_internal_type: u32,
    pub m_internal_format: u32,
}

/// Whether API target `t` is one whose storage the back end knows how to set
/// up: the 2D-like targets and the layered ones.
pub open spec fn spec_storable_target(t: u32) -> bool {
    spec_flat_target(t) || spec_layered_target(t)
}

pub open spec fn spec_flat_target(t: u32) -> bool {
    t == GL_TEXTURE_2D || t == GL_TEXTURE_CUBE_MAP || t == GL_TEXTURE_RECTANGLE || t
        == GL_TEXTURE_1D_ARRAY || t == GL_TEXTURE_2D_MULTISAMPLE
}

pub open spec fn spec_layered_target(t: u32) -> bool {
    t == GL_TEXTURE_2D_ARRAY || t == GL_TEXTURE_3D || t == GL_TEXTURE_2D_MULTISAMPLE_ARRAY
}

/// The sampling parameters set on a texture of API target `t`: linear
/// filtering and clamping for multisampled targets (set on the 2D target),
/// linear mipmapped filtering and repeating otherwise.
pub open spec fn spec_parameter_calls(t: u32) -> Seq<GlTextureCall> {
    if t == GL_TEXTURE_2D_MULTISAMPLE || t == GL_TEXTURE_2D_MULTISAMPLE_ARRAY {
        seq![
            GlTextureCall::TexParameteri(GL_TEXTURE_2D, GL_TEXTURE_MAG_FILTER, GL_LINEAR as i32),
            GlTextureCall::TexParameteri(GL_TEXTURE_2D, GL_TEXTURE_MIN_FILTER, GL_LINEAR as i32),
            GlTextureCall::TexParameteri(GL_TEXTURE_2D, GL_TEXTURE_WRAP_S, GL_CLAMP_TO_BORDER as i32),
            GlTextureCall::TexParameteri(GL_TEXTURE_2D, GL_TEXTURE_WRAP_T, GL_CLAMP_TO_BORDER as i32),
            GlTextureCall::TexParameteri(GL_TEXTURE_2D, GL_TEXTURE_WRAP_T, GL_CLAMP_TO_BORDER as i32),
        ]
    } else {
        seq![
            GlTextureCall::TexParameteri(t, GL_TEXTURE_MAG_FILTER, GL_LINEAR as i32),
            GlTextureCall::TexParameteri(t, GL_TEXTURE_MIN_FILTER, GL_LINEAR_MIPMAP_NEAREST as i32),
            GlTextureCall::TexParameteri(t, GL_TEXTURE_WRAP_S, GL_REPEAT as i32),
            GlTextureCall::TexParameteri(t, GL_TEXTURE_WRAP_T, GL_REPEAT as i32),
            GlTextureCall::TexParameteri(t, GL_TEXTURE_WRAP_R, GL_REPEAT as i32),
        ]
    }
}

/// The uploads of a texture `g` of a layered target.
pub open spec fn spec_layered_uploads(g: GlTexture) -> Seq<GlTextureCall> {
    let w = g.m_texture.m_width as i32;
    let h = g.m_texture.m_height as i32;
    match g.m_texture.m_type {
        EnumTextureInfo::Texture3D(_, _, _, _, _, d, _, _) => seq![
            GlTextureCall::TexImage3D(
                g.m_internal_target,
                g.m_level as i32,
                g.m_internal_format as i32,
                w,
                h,
                d as i32,
                g.m_format,
                g.m_internal_type,
                EnumTexData::Image,
            ),
        ],
        EnumTextureInfo::TextureArray(v) => seq![
            GlTextureCall::TexImage3D(
                g.m_internal_target,
                g.m_level as i32,
                g.m_internal_format as i32,
                w,
                h,
                (spec_depth(v@.last().0) + 1) as i32,
                g.m_format,
                g.m_internal_type,
                EnumTexData::Empty,
            ),
        ] + Seq::new(
            v@.len(),
            |k: int|
                GlTextureCall::TexSubImage3D(
                    g.m_internal_target,
                    g.m_level as i32,
                    spec_depth(v@[k].0) as i32,
                    w,
                    h,
                    g.m_format,
                    g.m_internal_type,
                    EnumTexData::Layer(k as usize),
                ),
        ),
        _ => Seq::empty(),
    }
}

/// The calls that store texture `g` under API name `id`.
pub open spec fn spec_apply_calls(g: GlTexture, id: u32) -> Seq<GlTextureCall> {
    let t = g.m_internal_target;
    let w = g.m_texture.m_width as i32;
    let h = g.m_texture.m_height as i32;
    let ms = g.m_ms matches Some(s) && s > 1;
    let head = seq![
        GlTextureCall::ActiveTexture((GL_TEXTURE0 + g.m_slot) as u32),
        GlTextureCall::BindTexture(t, id),
    ] + spec_parameter_calls(t) + if g.m_texture.m_depth % 2 == 1 {
        seq![GlTextureCall::PixelStorei(GL_UNPACK_ALIGNMENT, 1)]
    } else {
        Seq::empty()
    };
    if spec_flat_target(t) {
        head + (if ms {
            seq![
                GlTextureCall::TexImage2DMultisample(
                    t,
                    g.m_ms->0 as i32,
                    g.m_internal_format,
                    w,
                    h,
                ),
            ]
        } else {
            Seq::empty()
        }) + seq![
            GlTextureCall::TexImage2D(
                t,
                g.m_level as i32,
                g.m_internal_format as i32,
                w,
                h,
                g.m_format,
                g.m_internal_type,
                EnumTexData::Image,
            ),
        ]
    } else {
        head + (if ms {
            seq![
                GlTextureCall::TexImage3DMultisample(
                    t,
                    g.m_ms->0 as i32,
                    g.m_internal_format,
                    w,
                    h,
                    spec_depth(g.m_texture.m_type) as i32,
                ),
            ]
        } else {
            Seq::empty()
        }) + spec_layered_uploads(g) + seq![GlTextureCall::GenerateMipmap(t)]
    }
}

/// The upload of a texture array stacked at depths `0..n` (as
/// `TextureArray::new` and `append` keep it) reserves `n` layers and writes
/// layer `k`'s pixels at depth `k`: each layer into its own depth, all of them
/// below the depths reserved.
pub proof fn lemma_array_layers_uploaded_at_their_depths(g: GlTexture, id: u32, a: TextureArray, k: int)
    requires
        !spec_flat_target(g.m_internal_target),
        spec_layers_at_depths(a),
        0 < a.m_textures@.len() < u16::MAX,
        0 <= k < a.m_textures@.len(),
        g.m_texture.m_type matches EnumTextureInfo::TextureArray(v) && v@.len() == a.m_textures@.len()
            && forall|j: int| 0 <= j < v@.len() ==> (#[trigger] v@[j]).0 == a.m_textures@[j].m_type,
    ensures
        spec_apply_calls(g, id).contains(
            GlTextureCall::TexImage3D(
                g.m_internal_target,
                g.m_level as i32,
                g.m_internal_format as i32,
                g.m_texture.m_width as i32,
                g.m_texture.m_height as i32,
                a.m_textures@.len() as i32,
                g.m_format,
                g.m_internal_type,
                EnumTexData::Empty,
            ),
        ),
        spec_apply_calls(g, id).contains(
            GlTextureCall::TexSubImage3D(
                g.m_internal_target,
                g.m_level as i32,
                k as i32,
                g.m_texture.m_width as i32,
                g.m_texture.m_height as i32,
                g.m_format,
                g.m_internal_type,
                EnumTexData::Layer(k as usize),
            ),
        ),
        forall|i: int|
            0 <= i < spec_apply_calls(g, id).len() ==> (#[trigger] spec_apply_calls(g, id)[i] matches GlTextureCall::TexSubImage3D(
                _,
                _,
                z,
                _,
                _,
                _,
                _,
                EnumTexData::Layer(m),
            ) ==> z == m && m < a.m_textures@.len()),
{
    let calls = spec_apply_calls(g, id);
    let u = spec_layered_uploads(g);
    let v = g.m_texture.m_type->TextureArray_0;
    let n = v@.len() as int;
    assert(v@.last().0 == a.m_textures@[n - 1].m_type);
    assert(spec_depth(v@[k].0) == k);
    assert(u.len() == n + 1);
    let pre = calls.take(calls.len() - u.len() - 1);
    assert(calls =~= pre + u + seq![GlTextureCall::GenerateMipmap(g.m_internal_target)]);
    let p = pre.len() as int;
    assert(calls[p] == u[0]);
    assert(calls[p + 1 + k] == u[1 + k]);
    assert forall|i: int| 0 <= i < calls.len() implies (#[trigger] calls[i] matches GlTextureCall::TexSubImage3D(
        _,
        _,
        z,
        _,
        _,
        _,
        _,
        EnumTexData::Layer(m),
    ) ==> z == m && m < a.m_textures@.len()) by {
        if i < p {
            assert(calls[i] == pre[i]);
            assert(calls[i] == pre[i]);
        } else if i < p + u.len() {
            assert(calls[i] == u[i - p]);
            if i > p {
                let m = i - p - 1;
                assert(spec_depth(v@[m].0) == m);
            }
        }
    }
}

impl GlTexture {
    /// A 2D-array texture of 8-bit RGBA pixels in slot 7, holding nothing.
    pub fn default() -> (r: GlTexture)
        ensures
            r.m_id == 0,
            r.m_slot == 7,
            r.m_level == 0,
            r.m_ms is None,
            r.m_format == GL_RGBA,
            r.m_internal_target == GL_TEXTURE_2D_ARRAY,
            r.m_internal_type == GL_UNSIGNED_BYTE,
            r.m_internal_format == GL_RGBA8,
            r.m_texture.m_width == 0 && r.m_texture.m_height == 0 && r.m_texture.m_depth == 0,
            r.m_texture.m_data@.len() == 0,
    {
        GlTexture {
            m_id: 0,
            m_slot: 7,
            m_texture: TextureInfo {
                m_type: EnumTextureInfo::default(),
                m_width: 0,
                m_height: 0,
                m_depth: 0,
                m_data: Vec::new(),
            },
            m_level: 0,
            m_ms: None,
            m_format: GL_RGBA,
            m_internal_target: GL_TEXTURE_2D_ARRAY,
            m_internal_type: GL_UNSIGNED_BYTE,
            m_internal_format: GL_RGBA8,
        }
    }

    /// How `texture_info` is stored: its target, formats, pixel type, slot
    /// and mipmap level translated to the API's.
    pub fn new(texture_info: TextureInfo) -> (r: GlTexture)
        ensures
            r.m_id == 0,
            r.m_slot == spec_slot(texture_info.m_type),
            r.m_level == spec_mipmap_level(texture_info.m_type),
            (r.m_internal_target, r.m_ms) == spec_internal_target(spec_target(texture_info.m_type)),
            (r.m_format, r.m_internal_format) == spec_internal_format(spec_format(texture_info.m_type)),
            r.m_internal_type == spec_internal_type(spec_data_type(texture_info.m_type)),
            r.m_texture == texture_info,
    {
        let (target, samples) = convert_target_to_internal_target(texture_info.m_type.get_target());
        let (format, internal_format) = convert_format_to_internal_format(texture_info.m_type.get_format());
        let slot = texture_info.m_type.get_slot();
        let level = texture_info.m_type.get_mipmap_level();
        let internal_type = convert_type_to_internal_type(texture_info.m_type.get_data_type());
        GlTexture {
            m_id: 0,
            m_slot: slot,
            m_texture: texture_info,
            m_level: level,
            m_ms: samples,
            m_format: format,
            m_internal_target: target,
            m_internal_type: internal_type,
            m_internal_format: internal_format,
        }
    }

    pub fn get_depth(&self) -> (r: u16)
        ensures
            r == spec_depth(self.m_texture.m_type),
    {
        self.m_texture.m_type.get_depth()
    }

    pub fn get_size(&self) -> (r: (usize, usize))
        ensures
            r == (self.m_texture.m_width, self.m_texture.m_height),
    {
        (self.m_texture.m_width, self.m_texture.m_height)
    }

    pub fn set_depth(&mut self, depth: u16)
        ensures
            *final(self) == (GlTexture {
                m_texture: TextureInfo { m_depth: depth as usize, ..old(self).m_texture },
                ..*old(self)
            }),
    {
        self.m_texture.m_depth = depth as usize;
    }

    /// The calls that store the texture under the API name `id` (recorded):
    /// select its slot and bind it, set its sampling, relax the row alignment
    /// for an odd channel count, then reserve (multisampled) and upload its
    /// pixels; layered textures also get their mipmaps.
    #[verifier::spinoff_prover]
    #[verifier::rlimit(40)]
    pub fn apply(&mut self, id: u32) -> (r: Vec<GlTextureCall>)
        requires
            spec_storable_target(old(self).m_internal_target),
            old(self).m_texture.m_type matches EnumTextureInfo::TextureArray(v) ==> v@.len() > 0
                && spec_depth(v@.last().0) < u16::MAX,
        ensures
            *final(self) == (GlTexture { m_id: id, ..*old(self) }),
            r@ == spec_apply_calls(*old(self), id),
    {
        self.m_id = id;
        let t = self.m_internal_target;
        let w = self.m_texture.m_width as i32;
        let h = self.m_texture.m_height as i32;
        let mut calls: Vec<GlTextureCall> = Vec::new();
        calls.push(GlTextureCall::ActiveTexture(GL_TEXTURE0 + self.m_slot as u32));
        calls.push(GlTextureCall::BindTexture(t, id));
        if t == GL_TEXTURE_2D_MULTISAMPLE || t == GL_TEXTURE_2D_MULTISAMPLE_ARRAY {
            calls.push(GlTextureCall::TexParameteri(GL_TEXTURE_2D, GL_TEXTURE_MAG_FILTER, GL_LINEAR as i32));
            calls.push(GlTextureCall::TexParameteri(GL_TEXTURE_2D, GL_TEXTURE_MIN_FILTER, GL_LINEAR as i32));
            calls.push(
                GlTextureCall::TexParameteri(GL_TEXTURE_2D, GL_TEXTURE_WRAP_S, GL_CLAMP_TO_BORDER as i32),
            );
            calls.push(
                GlTextureCall::TexParameteri(GL_TEXTURE_2D, GL_TEXTURE_WRAP_T, GL_CLAMP_TO_BORDER as i32),
            );
            calls.push(
                GlTextureCall::TexParameteri(GL_TEXTURE_2D, GL_TEXTURE_WRAP_T, GL_CLAMP_TO_BORDER as i32),
            );
        } else {
            calls.push(GlTextureCall::TexParameteri(t, GL_TEXTURE_MAG_FILTER, GL_LINEAR as i32));
            calls.push(GlTextureCall::TexParameteri(t, GL_TEXTURE_MIN_FILTER, GL_LINEAR_MIPMAP_NEAREST as i32));
            calls.push(GlTextureCall::TexParameteri(t, GL_TEXTURE_WRAP_S, GL_REPEAT as i32));
            calls.push(GlTextureCall::TexParameteri(t, GL_TEXTURE_WRAP_T, GL_REPEAT as i32));
            calls.push(GlTextureCall::TexParameteri(t, GL_TEXTURE_WRAP_R, GL_REPEAT as i32));
        }
        if self.m_texture.m_depth % 2 == 1 {
            calls.push(GlTextureCall::PixelStorei(GL_UNPACK_ALIGNMENT, 1));
        }
        let ghost head = calls@;
        let ms: bool = match self.m_ms {
            Some(s) => s > 1,
            None => false,
        };
        let samples: i32 = match self.m_ms {
            Some(s) => s as i32,
            None => 0,
        };
        if t == GL_TEXTURE_2D || t == GL_TEXTURE_CUBE_MAP || t == GL_TEXTURE_RECTANGLE || t
            == GL_TEXTURE_1D_ARRAY || t == GL_TEXTURE_2D_MULTISAMPLE {
            if ms {
                calls.push(GlTextureCall::TexImage2DMultisample(t, samples, self.m_internal_format, w, h));
            }
            calls.push(
                GlTextureCall::TexImage2D(
                    t,
                    self.m_level as i32,
                    self.m_internal_format as i32,
                    w,
                    h,
                    self.m_format,
                    self.m_internal_type,
                    EnumTexData::Image,
                ),
            );
        } else {
            if ms {
                calls.push(
                    GlTextureCall::TexImage3DMultisample(
                        t,
                        samples,
                        self.m_internal_format,
                        w,
                        h,
                        self.m_texture.m_type.get_depth() as i32,
                    ),
                );
            }
            let ghost before_uploads = calls@;
            match &self.m_texture.m_type {
                EnumTextureInfo::Texture3D(_, _, _, _, _, d, _, _) => {
                    calls.push(
                        GlTextureCall::TexImage3D(
                            t,
                            self.m_level as i32,
                            self.m_internal_format as i32,
                            w,
                            h,
                            *d as i32,
                            self.m_format,
                            self.m_internal_type,
                            EnumTexData::Image,
                        ),
                    );
                },
                EnumTextureInfo::TextureArray(v) => {
                    let last_depth = v[v.len() - 1].0.get_depth();
                    calls.push(
                        GlTextureCall::TexImage3D(
                            t,
                            self.m_level as i32,
                            self.m_internal_format as i32,
                            w,
                            h,
                            (last_depth + 1) as i32,
                            self.m_format,
                            self.m_internal_type,
                            EnumTexData::Empty,
                        ),
                    );
                    let ghost first = calls@;
                    let mut k: usize = 0;
                    while k < v.len()
                        invariant
                            0 <= k <= v.len(),
                            calls@ == first + Seq::new(
                                k as nat,
                                |m: int|
                                    GlTextureCall::TexSubImage3D(
                                        t,
                                        self.m_level as i32,
                                        spec_depth(v@[m].0) as i32,
                                        w,
                                        h,
                                        self.m_format,
                                        self.m_internal_type,
                                        EnumTexData::Layer(m as usize),
                                    ),
                            ),
                        decreases v.len() - k,
                    {
                        calls.push(
                            GlTextureCall::TexSubImage3D(
                                t,
                                self.m_level as i32,
                                v[k].0.get_depth() as i32,
                                w,
                                h,
                                self.m_format,
                                self.m_internal_type,
                                EnumTexData::Layer(k),
                            ),
                        );
                        k = k + 1;
                        assert(calls@ =~= first + Seq::new(
                            k as nat,
                            |m: int|
                                GlTextureCall::TexSubImage3D(
                                    t,
                                    self.m_level as i32,
                                    spec_depth(v@[m].0) as i32,
                                    w,
                                    h,
                                    self.m_format,
                                    self.m_internal_type,
                                    EnumTexData::Layer(m as usize),
                                ),
                        ));
                    }
                },
                _ => {},
            }
            proof {
                assert(calls@ =~= before_uploads + spec_layered_uploads(*old(self)));
            }
            calls.push(GlTextureCall::GenerateMipmap(t));
        }
        proof {
            assert(head =~= seq![
                GlTextureCall::ActiveTexture((GL_TEXTURE0 + old(self).m_slot) as u32),
                GlTextureCall::BindTexture(t, id),
            ] + spec_parameter_calls(t) + if old(self).m_texture.m_depth % 2 == 1 {
                seq![GlTextureCall::PixelStorei(GL_UNPACK_ALIGNMENT, 1)]
            } else {
                Seq::empty()
            });
            assert(calls@ =~= spec_apply_calls(*old(self), id));
        }
        calls
    }

    /// The calls that release the texture.
    pub fn free(&self) -> (r: Vec<GlTextureCall>)
        ensures
            r@ == seq![
                GlTextureCall::BindTexture(self.m_internal_target, 0),
                GlTextureCall::DeleteTexture(self.m_id),
            ],
    {
        let mut calls: Vec<GlTextureCall> = Vec::new();
        calls.push(GlTextureCall::BindTexture(self.m_internal_target, 0));
        calls.push(GlTextureCall::DeleteTexture(self.m_id));
        calls
    }
}

/// A texture: its identity, where it is in its lifecycle, its options and
/// how the OpenGL back end stores it.
pub struct Texture {
    pub m_uuid: u64,
    pub m_state: EnumTextureState,
    pub m_api: GlTexture,
    pub m_hints: Vec<EnumTextureHint>,
}

/// The hints `s` after setting `h`: an equal hint leaves, `h` is appended.
pub open spec fn spec_with_texture_hint(s: Seq<EnumTextureHint>, h: EnumTextureHint) -> Seq<EnumTextureHint> {
    match s.index_of_first(h) {
        Some(i) => s.remove(i).push(h),
        None => s.push(h),
    }
}

impl Texture {
    /// The texture of `texture_info`, identified by `uuid`, created but not
    /// yet stored.
    pub fn new(texture_info: TextureInfo, uuid: u64) -> (r: Texture)
        ensures
            r.m_uuid == uuid,
            r.m_state == EnumTextureState::Created,
            r.m_hints@.len() == 0,
            r.m_api.m_texture == texture_info,
    {
        Texture { m_uuid: uuid, m_state: EnumTextureState::Created, m_api: GlTexture::new(texture_info), m_hints: Vec::new() }
    }

    /// Sets `hint`, replacing an equal one.
    pub fn set_hint(&mut self, hint: EnumTextureHint)
        ensures
            final(self).m_hints@ == spec_with_texture_hint(old(self).m_hints@, hint),
            final(self).m_state == old(self).m_state,
            final(self).m_uuid == old(self).m_uuid,
            final(self).m_api == old(self).m_api,
    {
        let mut i: usize = 0;
        while i < self.m_hints.len()
            invariant
                0 <= i <= self.m_hints.len(),
                self.m_hints@ == old(self).m_hints@,
                self.m_state == old(self).m_state,
                self.m_uuid == old(self).m_uuid,
                self.m_api == old(self).m_api,
                forall|j: int| 0 <= j < i ==> self.m_hints@[j] != hint,
            decreases self.m_hints.len() - i,
        {
            if self.m_hints[i] == hint {
                self.m_hints.remove(i);
                self.m_hints.push(hint);
                proof {
                    let s = old(self).m_hints@;
                    s.index_of_first_ensures(hint);
                    assert(s.index_of_first(hint) == Some(i as int)) by {
                        let f = s.index_of_first(hint)->0;
                        if f < i {
                            assert(s[f] == hint);
                        }
                        if f > i {
                            assert(s[i as int] == hint);
                        }
                    }
                }
                return;
            }
            i = i + 1;
        }
        proof {
            assert(!old(self).m_hints@.contains(hint));
            old(self).m_hints@.index_of_first_ensures(hint);
        }
        self.m_hints.push(hint);
    }

    pub fn reset_hints(&mut self)
        ensures
            final(self).m_hints@.len() == 0,
            final(self).m_state == old(self).m_state,
            final(self).m_uuid == old(self).m_uuid,
            final(self).m_api == old(self).m_api,
    {
        self.m_hints.clear();
    }

    /// Stores a created texture under API name `id`: the calls, and the
    /// texture is then sent. Anything else has nothing to store.
    pub fn apply(&mut self, id: u32) -> (r: Option<Vec<GlTextureCall>>)
        requires
            spec_storable_target(old(self).m_api.m_internal_target),
            old(self).m_api.m_texture.m_type matches EnumTextureInfo::TextureArray(v) ==> v@.len() > 0
                && spec_depth(v@.last().0) < u16::MAX,
        ensures
            old(self).m_state == EnumTextureState::Created ==> *final(self) == (Texture {
                m_state: EnumTextureState::Sent,
                m_api: GlTexture { m_id: id, ..old(self).m_api },
                ..*old(self)
            }) && (r matches Some(c) && c@ == spec_apply_calls(old(self).m_api, id)),
            old(self).m_state != EnumTextureState::Created ==> r is None && *final(self) == *old(self),
    {
        if self.m_state == EnumTextureState::Created {
            let calls = self.m_api.apply(id);
            self.m_state = EnumTextureState::Sent;
            return Some(calls);
        }
        None
    }

    /// Releases a sent texture: the calls, and the texture is then deleted.
    pub fn free(&mut self) -> (r: Option<Vec<GlTextureCall>>)
        ensures
            old(self).m_state == EnumTextureState::Sent ==> *final(self) == (Texture {
                m_state: EnumTextureState::Deleted,
                ..*old(self)
            }) && (r matches Some(c) && c@ == seq![
                GlTextureCall::BindTexture(old(self).m_api.m_internal_target, 0),
                GlTextureCall::DeleteTexture(old(self).m_api.m_id),
            ]),
            old(self).m_state != EnumTextureState::Sent ==> r is None && *final(self) == *old(self),
    {
        if self.m_state == EnumTextureState::Sent {
            let calls = self.m_api.free();
            self.m_state = EnumTextureState::Deleted;
            return Some(calls);
        }
        None
    }

    pub fn get_depth(&self) -> (r: u16)
        ensures
            r == spec_depth(self.m_api.m_texture.m_type),
    {
        self.m_api.get_depth()
    }

    pub fn get_size(&self) -> (r: (usize, usize))
        ensures
            r == (self.m_api.m_texture.m_width, self.m_api.m_texture.m_height),
    {
        self.m_api.get_size()
    }

    pub fn set_depth(&mut self, depth: u16)
        ensures
            *final(self) == (Texture {
                m_api: GlTexture {
                    m_texture: TextureInfo { m_depth: depth as usize, ..old(self).m_api.m_texture },
                    ..old(self).m_api
                },
                ..*old(self)
            }),
    {
        self.m_api.set_depth(depth);
    }
}

} // verus!
