//! The texture loader: the options an image is loaded with, and what a
//! decoded image becomes (its format, size, slot and storage).

use vstd::prelude::*;

use crate::graphics::texture::{
    EnumTextureDataAlignment, EnumTextureFormat, EnumTextureInfo, EnumTextureLoaderError,
    EnumTextureTarget, TextureInfo,
};
use crate::hints::{set_hint_in, spec_with_hint, TraitHintKind};

verus! {

#[derive(Debug, Copy, Clone, PartialEq, Eq, Hash)]
pub enum EnumTextureLoaderHint {
    TextureType(EnumTextureTarget),
    MaxDimensions((u32, u32, u32)),
    MaxMipMapLevel(u32),
    TargetFormat(EnumTextureFormat),
    IsHdr(bool),
    DataEncodedWith(EnumTextureDataAlignment),
    FlipUvs(bool),
    BindLess(bool),
}

/// The payload of a texture loader hint.
#[derive(Debug, Copy, Clone, PartialEq, Eq, Hash)]
pub enum EnumTextureLoaderHintValue {
    Target(EnumTextureTarget),
    Dimensions((u32, u32, u32)),
    Level(u32),
    Format(EnumTextureFormat),
    Flag(bool),
    DataType(EnumTextureDataAlignment),
}

pub open spec fn spec_loader_hint_kind(h: EnumTextureLoaderHint) -> nat {
    match h {
        EnumTextureLoaderHint::TextureType(_) => 0,
        EnumTextureLoaderHint::MaxDimensions(_) => 1,
        EnumTextureLoaderHint::MaxMipMapLevel(_) => 2,
        EnumTextureLoaderHint::TargetFormat(_) => 3,
        EnumTextureLoaderHint::IsHdr(_) => 4,
        EnumTextureLoaderHint::DataEncodedWith(_) => 5,
        EnumTextureLoaderHint::FlipUvs(_) => 6,
        EnumTextureLoaderHint::BindLess(_) => 7,
    }
}

pub open spec fn spec_loader_hint_value(h: EnumTextureLoaderHint) -> EnumTextureLoaderHintValue {
    match h {
        EnumTextureLoaderHint::TextureType(t) => EnumTextureLoaderHintValue::Target(t),
        EnumTextureLoaderHint::MaxDimensions(d) => EnumTextureLoaderHintValue::Dimensions(d),
        EnumTextureLoaderHint::MaxMipMapLevel(l) => EnumTextureLoaderHintValue::Level(l),
        EnumTextureLoaderHint::TargetFormat(f) => EnumTextureLoaderHintValue::Format(f),
        EnumTextureLoaderHint::IsHdr(b) => EnumTextureLoaderHintValue::Flag(b),
        EnumTextureLoaderHint::DataEncodedWith(d) => EnumTextureLoaderHintValue::DataType(d),
        EnumTextureLoaderHint::FlipUvs(b) => EnumTextureLoaderHintValue::Flag(b),
        EnumTextureLoaderHint::BindLess(b) => EnumTextureLoaderHintValue::Flag(b),
    }
}

impl TraitHintKind for EnumTextureLoaderHint {
    open spec fn spec_kind(&self) -> nat {
        spec_loader_hint_kind(*self)
    }

    fn kind(&self) -> (k: u8) {
        match self {
            EnumTextureLoaderHint::TextureType(_) => 0,
            EnumTextureLoaderHint::MaxDimensions(_) => 1,
            EnumTextureLoaderHint::MaxMipMapLevel(_) => 2,
            EnumTextureLoaderHint::TargetFormat(_) => 3,
            EnumTextureLoaderHint::IsHdr(_) => 4,
            EnumTextureLoaderHint::DataEncodedWith(_) => 5,
            EnumTextureLoaderHint::FlipUvs(_) => 6,
            EnumTextureLoaderHint::BindLess(_) => 7,
        }
    }
}

impl EnumTextureLoaderHint {
    pub fn get_value(&self) -> (r: EnumTextureLoaderHintValue)
        ensures
            r == spec_loader_hint_value(*self),
    {
        match self {
            EnumTextureLoaderHint::TextureType(t) => EnumTextureLoaderHintValue::Target(*t),
            EnumTextureLoaderHint::MaxDimensions(d) => EnumTextureLoaderHintValue::Dimensions(*d),
            EnumTextureLoaderHint::MaxMipMapLevel(l) => EnumTextureLoaderHintValue::Level(*l),
            EnumTextureLoaderHint::TargetFormat(f) => EnumTextureLoaderHintValue::Format(*f),
            EnumTextureLoaderHint::IsHdr(b) => EnumTextureLoaderHintValue::Flag(*b),
            EnumTextureLoaderHint::DataEncodedWith(d) => EnumTextureLoaderHintValue::DataType(*d),
            EnumTextureLoaderHint::FlipUvs(b) => EnumTextureLoaderHintValue::Flag(*b),
            EnumTextureLoaderHint::BindLess(b) => EnumTextureLoaderHintValue::Flag(*b),
        }
    }

    /// Whether both hints are of the same kind, whatever their payloads.
    pub fn is_equivalent(&self, other: &Self) -> (r: bool)
        ensures
            r == (spec_loader_hint_kind(*self) == spec_loader_hint_kind(*other)),
    {
        self.kind() == other.kind()
    }
}

/// What the hints set: target, dimensions, mipmap level, format, data layout
/// and whether the image is HDR (each the last hint of its kind, or the default).
pub struct LoaderSettings {
    pub m_target: EnumTextureTarget,
    pub m_dimensions: (u32, u32, u32),
    pub m_mipmap: u32,
    pub m_format: EnumTextureFormat,
    pub m_data_type: EnumTextureDataAlignment,
    pub m_hdr: bool,
}

/// The settings after the first `n` hints of `hints`.
pub open spec fn spec_settings(hints: Seq<EnumTextureLoaderHint>, n: int) -> LoaderSettings
    decreases n,
{
    if n <= 0 {
        LoaderSettings {
            m_target: EnumTextureTarget::Texture2D,
            m_dimensions: (0, 0, 0),
            m_mipmap: 0,
            m_format: EnumTextureFormat::Rgb,
            m_data_type: EnumTextureDataAlignment::UnsignedByte,
            m_hdr: false,
        }
    } else {
        let s = spec_settings(hints, n - 1);
        match hints[n - 1] {
            EnumTextureLoaderHint::TextureType(t) => LoaderSettings { m_target: t, ..s },
            EnumTextureLoaderHint::MaxDimensions(d) => LoaderSettings { m_dimensions: d, ..s },
            EnumTextureLoaderHint::MaxMipMapLevel(l) => LoaderSettings { m_mipmap: l, ..s },
            EnumTextureLoaderHint::TargetFormat(f) => LoaderSettings { m_format: f, ..s },
            EnumTextureLoaderHint::DataEncodedWith(d) => LoaderSettings { m_data_type: d, ..s },
            EnumTextureLoaderHint::IsHdr(b) => LoaderSettings { m_hdr: b, ..s },
            _ => s,
        }
    }
}

/// Whether `a` comes after `b`, comparing dimensions in order.
pub open spec fn spec_dims_after(a: (u32, u32, u32), b: (u32, u32, u32)) -> bool {
    a.0 > b.0 || (a.0 == b.0 && (a.1 > b.1 || (a.1 == b.1 && a.2 > b.2)))
}

/// The format an image with `channels` channels is stored in; `hinted` for
/// channel counts other than 1 to 4.
pub open spec fn spec_channel_format(channels: usize, hinted: EnumTextureFormat) -> EnumTextureFormat {
    if channels == 1 {
        EnumTextureFormat::Red
    } else if channels == 2 {
        EnumTextureFormat::Rg
    } else if channels == 3 {
        EnumTextureFormat::Rgb
    } else if channels == 4 {
        EnumTextureFormat::Rgba
    } else {
        hinted
    }
}

/// The slot of a square texture of side 64 to 2048 (a power of two): 3 to 8.
pub open spec fn spec_slot_of(x: u32, y: u32) -> Option<u16> {
    if x == 64 && y == 64 {
        Some(3)
    } else if x == 128 && y == 128 {
        Some(4)
    } else if x == 256 && y == 256 {
        Some(5)
    } else if x == 512 && y == 512 {
        Some(6)
    } else if x == 1024 && y == 1024 {
        Some(7)
    } else if x == 2048 && y == 2048 {
        Some(8)
    } else {
        None
    }
}

/// Whether the loader can store textures of target `t`: 1D, 2D and 3D ones,
/// multisampled or not.
pub open spec fn spec_loadable_target(t: EnumTextureTarget) -> bool {
    t is Texture1D || t is Texture2D || t is Texture2DMs || t is Texture3D || t is Texture3DMs
}

/// The dimensions used: the image's, unless the hinted ones are set and do
/// not come after them.
pub open spec fn spec_dimensions(hinted: (u32, u32, u32), image: (u32, u32, u32)) -> (u32, u32, u32) {
    if spec_dims_after(hinted, image) || hinted == (0u32, 0u32, 0u32) {
        image
    } else {
        hinted
    }
}

/// What an image of `image` dimensions becomes under settings `s`, given its
/// format and slot.
pub open spec fn spec_texture_info(
    s: LoaderSettings,
    format: EnumTextureFormat,
    dims: (u32, u32, u32),
    slot: u16,
) -> EnumTextureInfo {
    match s.m_target {
        EnumTextureTarget::Texture1D => EnumTextureInfo::Texture1D(
            s.m_target,
            s.m_mipmap,
            format,
            dims.0,
            s.m_data_type,
            slot,
        ),
        EnumTextureTarget::Texture3D | EnumTextureTarget::Texture3DMs(_) => EnumTextureInfo::Texture3D(
            s.m_target,
            s.m_mipmap,
            format,
            dims.0,
            dims.1,
            0,
            s.m_data_type,
            slot,
        ),
        _ => EnumTextureInfo::Texture2D(
            s.m_target,
            s.m_mipmap,
            format,
            dims.0,
            dims.1,
            s.m_data_type,
            slot,
        ),
    }
}

/// The texture loader and its options.
pub struct TextureLoader {
    pub m_hints: Vec<EnumTextureLoaderHint>,
}

impl TextureLoader {
    pub fn new() -> (r: TextureLoader)
        ensures
            r.m_hints@.len() == 0,
    {
        TextureLoader { m_hints: Vec::new() }
    }

    /// Sets `hint`, replacing the hint of the same kind.
    pub fn set_hint(&mut self, hint: EnumTextureLoaderHint)
        ensures
            final(self).m_hints@ == spec_with_hint(old(self).m_hints@, hint),
    {
        set_hint_in(&mut self.m_hints, hint);
    }

    pub fn reset_hints(&mut self)
        ensures
            final(self).m_hints@.len() == 0,
    {
        self.m_hints.clear();
    }

    /// Whether images are flipped vertically when loaded (texture coordinates
    /// with their origin at the bottom, as OpenGL has them).
    pub fn flips_uvs(&self) -> (r: bool)
        ensures
            r == self.m_hints@.contains(EnumTextureLoaderHint::FlipUvs(true)),
    {
        let mut i: usize = 0;
        while i < self.m_hints.len()
            invariant
                0 <= i <= self.m_hints.len(),
                forall|j: int| 0 <= j < i ==> self.m_hints@[j] != EnumTextureLoaderHint::FlipUvs(true),
            decreases self.m_hints.len() - i,
        {
            let found = match self.m_hints[i] {
                EnumTextureLoaderHint::FlipUvs(b) => b,
                _ => false,
            };
            if found {
                assert(self.m_hints@[i as int] == EnumTextureLoaderHint::FlipUvs(true));
                return true;
            }
            i = i + 1;
        }
        false
    }

    /// The settings the hints make.
    pub fn settings(&self) -> (r: LoaderSettings)
        ensures
            r == spec_settings(self.m_hints@, self.m_hints@.len() as int),
    {
        let mut s = LoaderSettings {
            m_target: EnumTextureTarget::default(),
            m_dimensions: (0, 0, 0),
            m_mipmap: 0,
            m_format: EnumTextureFormat::default(),
            m_data_type: EnumTextureDataAlignment::default(),
            m_hdr: false,
        };
        let mut i: usize = 0;
        while i < self.m_hints.len()
            invariant
                0 <= i <= self.m_hints.len(),
                s == spec_settings(self.m_hints@, i as int),
            decreases self.m_hints.len() - i,
        {
            match self.m_hints[i] {
                EnumTextureLoaderHint::TextureType(t) => s.m_target = t,
                EnumTextureLoaderHint::MaxDimensions(d) => s.m_dimensions = d,
                EnumTextureLoaderHint::MaxMipMapLevel(l) => s.m_mipmap = l,
                EnumTextureLoaderHint::TargetFormat(f) => s.m_format = f,
                EnumTextureLoaderHint::DataEncodedWith(d) => s.m_data_type = d,
                EnumTextureLoaderHint::IsHdr(b) => s.m_hdr = b,
                _ => {},
            }
            i = i + 1;
        }
        s
    }

    /// Whether the target the hints set is one the loader can store (see
    /// `spec_loadable_target`).
    pub fn can_store_target(&self) -> (r: bool)
        ensures
            r == spec_loadable_target(spec_settings(self.m_hints@, self.m_hints@.len() as int).m_target),
    {
        match self.settings().m_target {
            EnumTextureTarget::Texture1D | EnumTextureTarget::Texture2D | EnumTextureTarget::Texture2DMs(_)
            | EnumTextureTarget::Texture3D | EnumTextureTarget::Texture3DMs(_) => true,
            _ => false,
        }
    }

    /// What a decoded 8-bit image (`width` x `height` pixels of `channels`
    /// channels) becomes: the format follows the channel count; the
    /// dimensions are the image's unless the hinted ones are set and lie
    /// within them; the slot follows the (square) size, and sizes other than
    /// 64 to 2048 are refused with `InvalidSize`.
    pub fn resolve(&self, width: usize, height: usize, channels: usize, data: Vec<u8>) -> (r: Result<
        TextureInfo,
        EnumTextureLoaderError,
    >)
        requires
            spec_loadable_target(spec_settings(self.m_hints@, self.m_hints@.len() as int).m_target),
        ensures
            ({
                let s = spec_settings(self.m_hints@, self.m_hints@.len() as int);
                let format = spec_channel_format(channels, s.m_format);
                let dims = spec_dimensions(
                    s.m_dimensions,
                    (width as u32, height as u32, channels as u32),
                );
                &&& r is Err <==> spec_slot_of(dims.0, dims.1) is None
                &&& r is Err ==> r == Err::<TextureInfo, EnumTextureLoaderError>(
                    EnumTextureLoaderError::InvalidSize,
                )
                &&& r matches Ok(t) ==> t.m_type == spec_texture_info(
                    s,
                    format,
                    dims,
                    spec_slot_of(dims.0, dims.1)->0,
                ) && t.m_width == width && t.m_height == height && t.m_depth == channels && t.m_data@
                    == data@
            }),
    {
        let s = self.settings();
        let format = match channels {
            1 => EnumTextureFormat::Red,
            2 => EnumTextureFormat::Rg,
            3 => EnumTextureFormat::Rgb,
            4 => EnumTextureFormat::Rgba,
            _ => s.m_format,
        };
        let image = (width as u32, height as u32, channels as u32);
        let h = s.m_dimensions;
        let after = h.0 > image.0 || (h.0 == image.0 && (h.1 > image.1 || (h.1 == image.1 && h.2
            > image.2)));
        let dims = if after || (h.0 == 0 && h.1 == 0 && h.2 == 0) {
            image
        } else {
            h
        };
        let slot: u16 = if dims.0 == 64 && dims.1 == 64 {
            3
        } else if dims.0 == 128 && dims.1 == 128 {
            4
        } else if dims.0 == 256 && dims.1 == 256 {
            5
        } else if dims.0 == 512 && dims.1 == 512 {
            6
        } else if dims.0 == 1024 && dims.1 == 1024 {
            7
        } else if dims.0 == 2048 && dims.1 == 2048 {
            8
        } else {
            return Err(EnumTextureLoaderError::InvalidSize);
        };
        let info = match s.m_target {
            EnumTextureTarget::Texture1D => EnumTextureInfo::Texture1D(
                s.m_target,
                s.m_mipmap,
                format,
                dims.0,
                s.m_data_type,
                slot,
            ),
            EnumTextureTarget::Texture3D | EnumTextureTarget::Texture3DMs(_) => EnumTextureInfo::Texture3D(
                s.m_target,
                s.m_mipmap,
                format,
                dims.0,
                dims.1,
                0,
                s.m_data_type,
                slot,
            ),
            _ => EnumTextureInfo::Texture2D(
                s.m_target,
                s.m_mipmap,
                format,
                dims.0,
                dims.1,
                s.m_data_type,
                slot,
            ),
        };
        Ok(TextureInfo { m_type: info, m_width: width, m_height: height, m_depth: channels, m_data: data })
    }

    /// Whether a decoded floating-point image may be taken: only where the
    /// image is declared HDR; otherwise `InvalidFormat`.
    pub fn check_hdr(&self) -> (r: Result<(), EnumTextureLoaderError>)
        ensures
            r is Ok <==> spec_settings(self.m_hints@, self.m_hints@.len() as int).m_hdr,
            r is Err ==> r == Err::<(), EnumTextureLoaderError>(EnumTextureLoaderError::InvalidFormat),
    {
        if !self.settings().m_hdr {
            return Err(EnumTextureLoaderError::InvalidFormat);
        }
        Ok(())
    }
}

} // verus!
