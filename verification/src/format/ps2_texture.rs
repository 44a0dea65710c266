//! .ps2_texture structures

use vstd::prelude::*;
use super::Validatable;
use crate::util::bytes::{le_u16, le_u32, read_u16_le, read_u32_le};

verus! {

/// .ps2_texture header (56 bytes on disk).
#[derive(Debug)]
pub struct Ps2TextureHeader {
    pub magic: u32,
    pub unk: u32,
    pub unk2: u16,
    pub width: u16,
    pub height: u16,
    /// bits-per-pixel of the texture data. Anything above 8 will not have an associated
    /// .ps2_palette file, since the texture data will not be indirect color.
    pub bpp: u16,
    /// Data start offset.
    pub data_start_offset: u32,
    /// Possibly the size of this header.
    pub header_end_offset: u32,
    /// Mostly unrelated values; probably padding space for the game code to put stuff.
    pub unk6: [u32; 8],
}

impl Ps2TextureHeader {
    /// 'TEX1'
    pub const VALID_FOURCC: u32 = 0x31584554;

    /// Size of the header on disk, in bytes.
    pub const SIZE: usize = 56;

    /// Whether `self` is the header stored at the start of `b`.
    pub open spec fn is_decoding_of(&self, b: Seq<u8>) -> bool {
        &&& self.magic == le_u32(b, 0)
        &&& self.unk == le_u32(b, 4)
        &&& self.unk2 == le_u16(b, 8)
        &&& self.width == le_u16(b, 10)
        &&& self.height == le_u16(b, 12)
        &&& self.bpp == le_u16(b, 14)
        &&& self.data_start_offset == le_u32(b, 16)
        &&& self.header_end_offset == le_u32(b, 20)
        &&& self.unk6@ == Seq::new(8, |i: int| le_u32(b, 24 + 4 * i))
    }

    /// Whether every field of `self` is zero.
    pub open spec fn is_zeroed(&self) -> bool {
        &&& self.magic == 0 && self.unk == 0 && self.unk2 == 0 && self.width == 0
        &&& self.height == 0 && self.bpp == 0 && self.data_start_offset == 0
        &&& self.header_end_offset == 0
        &&& self.unk6@ == Seq::new(8, |i: int| 0u32)
    }

    /// Decode the header stored at the start of `b`, or `None` if `b` is too short to hold one.
    pub fn from_bytes(b: &[u8]) -> (r: Option<Ps2TextureHeader>)
        ensures
            b@.len() < Self::SIZE ==> r is None,
            b@.len() >= Self::SIZE ==> (r matches Some(h) && h.is_decoding_of(b@)),
    {
        if b.len() < Self::SIZE {
            return None;
        }
        let h = Ps2TextureHeader {
            magic: read_u32_le(b, 0),
            unk: read_u32_le(b, 4),
            unk2: read_u16_le(b, 8),
            width: read_u16_le(b, 10),
            height: read_u16_le(b, 12),
            bpp: read_u16_le(b, 14),
            data_start_offset: read_u32_le(b, 16),
            header_end_offset: read_u32_le(b, 20),
            unk6: [
                read_u32_le(b, 24),
                read_u32_le(b, 28),
                read_u32_le(b, 32),
                read_u32_le(b, 36),
                read_u32_le(b, 40),
                read_u32_le(b, 44),
                read_u32_le(b, 48),
                read_u32_le(b, 52),
            ],
        };
        assert(h.unk6@ =~= Seq::new(8, |i: int| le_u32(b@, 24 + 4 * i)));
        Some(h)
    }

    /// Whether the texture is palettized: textures of at most 8 bits per pixel hold
    /// indices into a .ps2_palette file (8bpp and 16bpp are the only depths seen so far).
    pub fn has_palette(&self) -> (r: bool)
        ensures
            r == (self.bpp <= 8),
    {
        self.bpp <= 8
    }
}

impl Default for Ps2TextureHeader {
    /// A header with every field zero.
    fn default() -> (r: Ps2TextureHeader)
        ensures
            r.is_zeroed(),
    {
        let r = Ps2TextureHeader {
            magic: 0,
            unk: 0,
            unk2: 0,
            width: 0,
            height: 0,
            bpp: 0,
            data_start_offset: 0,
            header_end_offset: 0,
            unk6: [0, 0, 0, 0, 0, 0, 0, 0],
        };
        assert(r.unk6@ =~= Seq::new(8, |i: int| 0u32));
        r
    }
}

impl Validatable for Ps2TextureHeader {
    /// The magic is 'TEX1' and the header end offset is 0x38.
    open spec fn spec_valid(&self) -> bool {
        self.magic == Self::VALID_FOURCC && self.header_end_offset == 0x38
    }

    fn valid(&self) -> (r: bool) {
        self.magic == Self::VALID_FOURCC && self.header_end_offset == 0x38
    }
}


/// A texture header is valid exactly when its magic reads 'TEX1' (bytes `T`, `E`, `X`, `1`
/// in file order) and its header end offset is 0x38 (the header's size); no other field
/// plays a part.
pub proof fn lemma_texture_header_valid(h: Ps2TextureHeader)
    ensures
        h.spec_valid() <==> (h.magic == 0x54 + 0x45 * 0x100 + 0x58 * 0x1_0000 + 0x31 * 0x100_0000
            && h.header_end_offset == 0x38),
{
}

} // verus!
