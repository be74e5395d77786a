//! Colors packed in one 32-bit word: red in the lowest byte, then green,
//! blue and alpha.

use vstd::prelude::*;

verus! {

#[derive(Debug, Copy, Clone, PartialEq, Eq, Structural, Hash)]
pub struct Color {
    pub m_rgba: u32,
}

/// The word packing channels `c` (red, green, blue, alpha).
pub open spec fn spec_pack(c: [u8; 4]) -> u32 {
    (c[0] as u32) | ((c[1] as u32) << 8u32) | ((c[2] as u32) << 16u32) | ((c[3] as u32) << 24u32)
}

/// Channel `k` (0 red, 1 green, 2 blue, 3 alpha) of word `w`.
pub open spec fn spec_channel(w: u32, k: int) -> u8 {
    if k == 0 {
        (w & 0xFFu32) as u8
    } else if k == 1 {
        ((w & 0xFF00u32) >> 8u32) as u8
    } else if k == 2 {
        ((w & 0xFF0000u32) >> 16u32) as u8
    } else {
        ((w & 0xFF000000u32) >> 24u32) as u8
    }
}

proof fn lemma_pack_unpack(r: u8, g: u8, b: u8, a: u8)
    by (bit_vector)
    ensures
        ((r as u32) | ((g as u32) << 8u32) | ((b as u32) << 16u32) | ((a as u32) << 24u32)) & 0xFFu32
            == r as u32,
        (((r as u32) | ((g as u32) << 8u32) | ((b as u32) << 16u32) | ((a as u32) << 24u32))
            & 0xFF00u32) >> 8u32 == g as u32,
        (((r as u32) | ((g as u32) << 8u32) | ((b as u32) << 16u32) | ((a as u32) << 24u32))
            & 0xFF0000u32) >> 16u32 == b as u32,
        (((r as u32) | ((g as u32) << 8u32) | ((b as u32) << 16u32) | ((a as u32) << 24u32))
            & 0xFF000000u32) >> 24u32 == a as u32,
        (r as u32) + ((g as u32) << 8u32) + ((b as u32) << 16u32) + ((a as u32) << 24u32) == (
        r as u32) | ((g as u32) << 8u32) | ((b as u32) << 16u32) | ((a as u32) << 24u32),
        (r as u32) + ((g as u32) << 8u32) + ((b as u32) << 16u32) + ((a as u32) << 24u32)
            <= u32::MAX,
{
}

proof fn lemma_unpack_pack(w: u32)
    by (bit_vector)
    ensures
        ((w & 0xFFu32) as u8 as u32) | ((((w & 0xFF00u32) >> 8u32) as u8 as u32) << 8u32) | ((((w
            & 0xFF0000u32) >> 16u32) as u8 as u32) << 16u32) | ((((w & 0xFF000000u32) >> 24u32) as u8
            as u32) << 24u32) == w,
        (w & 0xFF00u32) >> 8u32 <= 0xFF,
        (w & 0xFF0000u32) >> 16u32 <= 0xFF,
        (w & 0xFF000000u32) >> 24u32 <= 0xFF,
        w & 0xFFu32 <= 0xFF,
{
}

impl Color {
    /// Opaque white.
    pub fn default() -> (r: Color)
        ensures
            r.m_rgba == 0xFFFF_FFFFu32,
    {
        Color { m_rgba: 0xFFFF_FFFF }
    }

    /// Resets the color to opaque white.
    pub fn reset(&mut self)
        ensures
            final(self).m_rgba == 0xFFFF_FFFFu32,
    {
        self.m_rgba = Self::default().m_rgba;
    }

    /// The four channels: red, green, blue, alpha.
    pub fn as_u8(&self) -> (r: [u8; 4])
        ensures
            r@ == seq![
                spec_channel(self.m_rgba, 0),
                spec_channel(self.m_rgba, 1),
                spec_channel(self.m_rgba, 2),
                spec_channel(self.m_rgba, 3),
            ],
    {
        let w = self.m_rgba;
        proof {
            lemma_unpack_pack(w);
        }
        [
            (w & 0xFF) as u8,
            ((w & 0xFF00) >> 8) as u8,
            ((w & 0xFF0000) >> 16) as u8,
            ((w & 0xFF000000) >> 24) as u8,
        ]
    }

    /// The color of channels `rgba` (red, green, blue, alpha).
    pub fn from_u8(rgba: [u8; 4]) -> (r: Color)
        ensures
            r.m_rgba == spec_pack(rgba),
    {
        let red: u32 = rgba[0] as u32;
        let green: u32 = (rgba[1] as u32) << 8;
        let blue: u32 = (rgba[2] as u32) << 16;
        let alpha: u32 = (rgba[3] as u32) << 24;
        proof {
            lemma_pack_unpack(rgba[0], rgba[1], rgba[2], rgba[3]);
        }
        Color { m_rgba: red + green + blue + alpha }
    }

    /// The color whose packed word is `rgba`.
    pub fn from_u32(rgba: u32) -> (r: Color)
        ensures
            r.m_rgba == rgba,
    {
        Color { m_rgba: rgba }
    }
}

/// Packing channels and reading them back gives the same channels.
pub proof fn lemma_channels_roundtrip(c: [u8; 4])
    ensures
        spec_channel(spec_pack(c), 0) == c[0],
        spec_channel(spec_pack(c), 1) == c[1],
        spec_channel(spec_pack(c), 2) == c[2],
        spec_channel(spec_pack(c), 3) == c[3],
{
    lemma_pack_unpack(c[0], c[1], c[2], c[3]);
}

/// Reading a word's channels and packing them back gives the same word.
pub proof fn lemma_word_roundtrip(w: u32)
    ensures
        spec_pack(
            [spec_channel(w, 0), spec_channel(w, 1), spec_channel(w, 2), spec_channel(w, 3)],
        ) == w,
{
    lemma_unpack_pack(w);
}

} // verus!
